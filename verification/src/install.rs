//! The self-installer: a machine that is told what the outside did and says
//! what to do next.

use crate::error::{Error, EXIT_FAILURE, EXIT_SUCCESS};
use crate::identity::{CargoRedirectHelper, REDIRECTED_CARGO_NAME, SHADOWED_TOOL};
use crate::paths::{sibling_path, with_file_name_of};
use vstd::prelude::*;

verus! {

/// The toolchain manager that knows where the shadowed tool is installed.
pub const TOOLCHAIN_MANAGER: &'static str = "rustup";

/// The manager's subcommand that prints where a tool is installed.
pub const WHICH_SUBCOMMAND: &'static str = "which";

/// What marks the manager's argument that selects a toolchain.
pub const TOOLCHAIN_PREFIX: &'static str = "+";

/// What the command line asks of the installer.
#[derive(Debug, PartialEq, Eq)]
pub enum InstallRequest {
    /// No subcommand was given.
    NoSubcommand,
    /// `install`, into the named toolchain or into the default one.
    Install { toolchain: Option<String> },
}

/// What an [`InstallRequest`] holds.
pub enum RequestView {
    NoSubcommand,
    Install { toolchain: Option<Seq<char>> },
}

impl View for InstallRequest {
    type V = RequestView;

    open spec fn view(&self) -> RequestView {
        match self {
            InstallRequest::NoSubcommand => RequestView::NoSubcommand,
            InstallRequest::Install { toolchain } => RequestView::Install {
                toolchain: toolchain.deep_view(),
            },
        }
    }
}

/// How the query to the toolchain manager ended.
#[derive(Debug, PartialEq, Eq)]
pub enum ManagerReply {
    /// The manager could not be started.
    NotLaunched,
    /// The manager ran: its exit code, if it ended with one, and what it
    /// printed to standard output.
    Exited { code: Option<i32>, stdout: String },
}

/// What a [`ManagerReply`] holds.
pub enum ReplyView {
    NotLaunched,
    Exited { code: Option<i32>, stdout: Seq<char> },
}

impl View for ManagerReply {
    type V = ReplyView;

    open spec fn view(&self) -> ReplyView {
        match self {
            ManagerReply::NotLaunched => ReplyView::NotLaunched,
            ManagerReply::Exited { code, stdout } => ReplyView::Exited {
                code: *code,
                stdout: stdout@,
            },
        }
    }
}

/// The three paths of one installation.
#[derive(Debug, PartialEq, Eq)]
pub struct InstallationPlan {
    /// Where the shadowed tool is installed.
    pub original: String,
    /// Where the original binary is kept: beside `original`, under the
    /// reserved name.
    pub backup: String,
    /// The running executable, which takes the original's place.
    pub source: String,
}

/// What an [`InstallationPlan`] holds.
pub struct PlanView {
    pub original: Seq<char>,
    pub backup: Seq<char>,
    pub source: Seq<char>,
}

impl View for InstallationPlan {
    type V = PlanView;

    open spec fn view(&self) -> PlanView {
        PlanView { original: self.original@, backup: self.backup@, source: self.source@ }
    }
}

/// What the outside reports back to the installer.
#[derive(Debug, PartialEq, Eq)]
pub enum InstallEvent {
    /// The command line was read.
    Invoked(InstallRequest),
    /// The toolchain manager was queried.
    ManagerReplied(ManagerReply),
    /// The original path and the backup path were looked up.
    Probed { original_exists: bool, backup_exists: bool },
    /// A copy was attempted.
    Copied { ok: bool },
}

/// What an [`InstallEvent`] holds.
pub enum EventView {
    Invoked(RequestView),
    ManagerReplied(ReplyView),
    Probed { original_exists: bool, backup_exists: bool },
    Copied { ok: bool },
}

impl View for InstallEvent {
    type V = EventView;

    open spec fn view(&self) -> EventView {
        match self {
            InstallEvent::Invoked(request) => EventView::Invoked(request@),
            InstallEvent::ManagerReplied(reply) => EventView::ManagerReplied(reply@),
            InstallEvent::Probed { original_exists, backup_exists } => EventView::Probed {
                original_exists: *original_exists,
                backup_exists: *backup_exists,
            },
            InstallEvent::Copied { ok } => EventView::Copied { ok: *ok },
        }
    }
}

/// What the installer asks the outside to do.
#[derive(Debug, PartialEq, Eq)]
pub enum InstallAction {
    /// Read the command line.
    ParseArguments,
    /// Run the toolchain manager with these arguments and capture its output.
    RunManager { args: Vec<String> },
    /// Look up whether the two paths exist.
    Probe { original: String, backup: String },
    /// Copy the file at `from` over `to`.
    Copy { from: String, to: String },
    /// Print the usage and end the run with success.
    ShowUsage,
    /// End the run with this exit code.
    Exit { code: i32 },
}

/// What an [`InstallAction`] holds.
pub enum ActionView {
    ParseArguments,
    RunManager { args: Seq<Seq<char>> },
    Probe { original: Seq<char>, backup: Seq<char> },
    Copy { from: Seq<char>, to: Seq<char> },
    ShowUsage,
    Exit { code: i32 },
}

impl View for InstallAction {
    type V = ActionView;

    open spec fn view(&self) -> ActionView {
        match self {
            InstallAction::ParseArguments => ActionView::ParseArguments,
            InstallAction::RunManager { args } => ActionView::RunManager { args: args.deep_view() },
            InstallAction::Probe { original, backup } => ActionView::Probe {
                original: original@,
                backup: backup@,
            },
            InstallAction::Copy { from, to } => ActionView::Copy { from: from@, to: to@ },
            InstallAction::ShowUsage => ActionView::ShowUsage,
            InstallAction::Exit { code } => ActionView::Exit { code: *code },
        }
    }
}

/// How far an installation has come.
#[derive(Debug, PartialEq, Eq)]
pub enum InstallState {
    /// Nothing was done yet.
    Start,
    /// The toolchain manager is being asked where the shadowed tool lies.
    AwaitingManager { toolchain: Option<String> },
    /// The two paths are being looked up.
    AwaitingProbe { plan: InstallationPlan },
    /// The original binary is being copied to the backup path.
    AwaitingBackup { plan: InstallationPlan },
    /// The running executable is being copied over the original path.
    AwaitingOverwrite { plan: InstallationPlan },
    /// The installation is complete.
    Installed,
    /// No subcommand was given: the run ends by showing the usage.
    Usage,
    /// The installation was given up.
    Failed { error: Error },
}

/// What an [`InstallState`] holds.
pub enum StateView {
    Start,
    AwaitingManager { toolchain: Option<Seq<char>> },
    AwaitingProbe { plan: PlanView },
    AwaitingBackup { plan: PlanView },
    AwaitingOverwrite { plan: PlanView },
    Installed,
    Usage,
    Failed { error: Error },
}

impl View for InstallState {
    type V = StateView;

    open spec fn view(&self) -> StateView {
        match self {
            InstallState::Start => StateView::Start,
            InstallState::AwaitingManager { toolchain } => StateView::AwaitingManager {
                toolchain: toolchain.deep_view(),
            },
            InstallState::AwaitingProbe { plan } => StateView::AwaitingProbe { plan: plan@ },
            InstallState::AwaitingBackup { plan } => StateView::AwaitingBackup { plan: plan@ },
            InstallState::AwaitingOverwrite { plan } => StateView::AwaitingOverwrite { plan: plan@ },
            InstallState::Installed => StateView::Installed,
            InstallState::Usage => StateView::Usage,
            InstallState::Failed { error } => StateView::Failed { error: *error },
        }
    }
}

/// Whether a character is whitespace: whether Unicode gives it the property
/// `White_Space`. These are the tab, the line feed, the vertical tab, the
/// form feed and the carriage return, the space, the next-line character, the
/// no-break space, the Ogham space mark, the spaces from the en quad to the
/// hair space, the line and the paragraph separator, the narrow no-break
/// space, the medium mathematical space and the ideographic space.
pub open spec fn is_white_space(c: char) -> bool {
    let code = c as u32;
    ||| 0x0009 <= code <= 0x000D
    ||| code == 0x0020
    ||| code == 0x0085
    ||| code == 0x00A0
    ||| code == 0x1680
    ||| 0x2000 <= code <= 0x200A
    ||| code == 0x2028
    ||| code == 0x2029
    ||| code == 0x202F
    ||| code == 0x205F
    ||| code == 0x3000
}

/// The text without the whitespace at its start.
pub open spec fn trimmed_start(text: Seq<char>) -> Seq<char>
    decreases text.len(),
{
    if text.len() > 0 && is_white_space(text.first()) {
        trimmed_start(text.drop_first())
    } else {
        text
    }
}

/// The text without the whitespace at its end.
pub open spec fn trimmed_end(text: Seq<char>) -> Seq<char>
    decreases text.len(),
{
    if text.len() > 0 && is_white_space(text.last()) {
        trimmed_end(text.drop_last())
    } else {
        text
    }
}

/// The text without the whitespace at its two ends.
pub open spec fn trimmed(text: Seq<char>) -> Seq<char> {
    trimmed_end(trimmed_start(text))
}

/// What is left without the whitespace at the start does not start with
/// whitespace.
proof fn trimmed_start_is_bare(text: Seq<char>)
    ensures
        trimmed_start(text).len() > 0 ==> !is_white_space(trimmed_start(text).first()),
    decreases text.len(),
{
    if text.len() > 0 && is_white_space(text.first()) {
        trimmed_start_is_bare(text.drop_first());
    }
}

/// What is left without the whitespace at the end is a prefix of the text and
/// does not end with whitespace.
proof fn trimmed_end_is_bare_prefix(text: Seq<char>)
    ensures
        trimmed_end(text).len() > 0 ==> !is_white_space(trimmed_end(text).last()),
        trimmed_end(text).len() <= text.len(),
        trimmed_end(text) == text.subrange(0, trimmed_end(text).len() as int),
    decreases text.len(),
{
    if text.len() > 0 && is_white_space(text.last()) {
        let shorter = text.drop_last();
        trimmed_end_is_bare_prefix(shorter);
        assert(shorter.subrange(0, trimmed_end(shorter).len() as int) =~= text.subrange(
            0,
            trimmed_end(shorter).len() as int,
        ));
    } else {
        assert(text.subrange(0, text.len() as int) =~= text);
    }
}

/// A trimmed text neither starts nor ends with whitespace.
pub proof fn trimmed_has_bare_ends(text: Seq<char>)
    ensures
        trimmed(text).len() > 0 ==> !is_white_space(trimmed(text).first()) && !is_white_space(
            trimmed(text).last(),
        ),
{
    trimmed_start_is_bare(text);
    trimmed_end_is_bare_prefix(trimmed_start(text));
}

/// `str::trim`: the text without its leading and trailing whitespace, where
/// whitespace is what has the Unicode property `White_Space`.
#[verifier::external_body]
fn trim(text: &str) -> (out: String)
    ensures
        out@ == trimmed(text@),
{
    text.trim().to_owned()
}

/// The arguments of the query to the toolchain manager: `+` and the
/// toolchain's name where one was chosen, then `which`, then the shadowed
/// tool.
pub open spec fn manager_args(toolchain: Option<Seq<char>>) -> Seq<Seq<char>> {
    match toolchain {
        Some(name) => seq![TOOLCHAIN_PREFIX@ + name, WHICH_SUBCOMMAND@, SHADOWED_TOOL@],
        None => seq![WHICH_SUBCOMMAND@, SHADOWED_TOOL@],
    }
}

/// What the manager's reply says: the installed path of the shadowed tool,
/// which is the trimmed output of a manager that exited with zero, or a
/// failure of the query in every other case.
pub open spec fn manager_result(reply: ReplyView) -> Result<Seq<char>, Error> {
    match reply {
        ReplyView::Exited { code: Some(code), stdout } if code == 0 => Ok(trimmed(stdout)),
        _ => Err(Error::ToolchainQueryFailure),
    }
}

/// What the installer asks for in a state. In a state that ends the run this
/// is the way it ends.
pub open spec fn pending(state: StateView) -> ActionView {
    match state {
        StateView::Start => ActionView::ParseArguments,
        StateView::AwaitingManager { toolchain } => ActionView::RunManager {
            args: manager_args(toolchain),
        },
        StateView::AwaitingProbe { plan } => ActionView::Probe {
            original: plan.original,
            backup: plan.backup,
        },
        StateView::AwaitingBackup { plan } => ActionView::Copy {
            from: plan.original,
            to: plan.backup,
        },
        StateView::AwaitingOverwrite { plan } => ActionView::Copy {
            from: plan.source,
            to: plan.original,
        },
        StateView::Installed => ActionView::Exit { code: EXIT_SUCCESS },
        StateView::Usage => ActionView::ShowUsage,
        StateView::Failed { .. } => ActionView::Exit { code: EXIT_FAILURE },
    }
}

/// The state ends the run: no event moves the installer out of it.
pub open spec fn ends_run(state: StateView) -> bool {
    state is Installed || state is Usage || state is Failed
}

/// Where the original binary is kept: beside the original path, under the
/// reserved name.
pub open spec fn backup_path(original: Seq<char>) -> Seq<char> {
    with_file_name_of(original, REDIRECTED_CARGO_NAME@)
}

/// The plan for installing the executable at `source` over the tool at
/// `original`.
pub open spec fn plan_for(original: Seq<char>, source: Seq<char>) -> PlanView {
    PlanView { original, backup: backup_path(original), source }
}

/// The state after an event. `source` is the path of the running executable.
/// An event that does not answer what the state asks for leaves the state as
/// it is.
pub open spec fn next_state(source: Seq<char>, state: StateView, event: EventView) -> StateView {
    match (state, event) {
        (StateView::Start, EventView::Invoked(RequestView::NoSubcommand)) => StateView::Usage,
        (
            StateView::Start,
            EventView::Invoked(RequestView::Install { toolchain }),
        ) => StateView::AwaitingManager { toolchain },
        (StateView::AwaitingManager { .. }, EventView::ManagerReplied(reply)) => match manager_result(
            reply,
        ) {
            Ok(original) => StateView::AwaitingProbe { plan: plan_for(original, source) },
            Err(error) => StateView::Failed { error },
        },
        (
            StateView::AwaitingProbe { plan },
            EventView::Probed { original_exists, backup_exists },
        ) => if !original_exists && !backup_exists {
            StateView::Failed { error: Error::MissingOriginalBinary }
        } else if !backup_exists {
            StateView::AwaitingBackup { plan }
        } else {
            StateView::AwaitingOverwrite { plan }
        },
        (StateView::AwaitingBackup { plan }, EventView::Copied { ok }) => if ok {
            StateView::AwaitingOverwrite { plan }
        } else {
            StateView::Failed { error: Error::CopyFailure }
        },
        (StateView::AwaitingOverwrite { plan }, EventView::Copied { ok }) => if ok {
            StateView::Installed
        } else {
            StateView::Failed { error: Error::CopyFailure }
        },
        _ => state,
    }
}

impl InstallationPlan {
    /// The plan with these three paths.
    pub fn new(original: String, backup: String, source: String) -> (plan: InstallationPlan)
        ensures
            plan@ == (PlanView { original: original@, backup: backup@, source: source@ }),
    {
        InstallationPlan { original, backup, source }
    }
}

/// Copies a list of strings.
fn clone_strings(list: &Vec<String>) -> (copy: Vec<String>)
    ensures
        copy.deep_view() == list.deep_view(),
{
    let mut copy: Vec<String> = Vec::new();
    let mut i: usize = 0;
    while i < list.len()
        invariant
            i <= list.len(),
            copy.len() == i,
            forall|j: int| 0 <= j < i ==> copy[j]@ == list[j]@,
        decreases list.len() - i,
    {
        copy.push(list[i].clone());
        i += 1;
    }
    assert(copy.deep_view() =~= list.deep_view());
    copy
}

impl Clone for InstallRequest {
    fn clone(&self) -> (copy: InstallRequest)
        ensures
            copy@ == self@,
    {
        match self {
            InstallRequest::NoSubcommand => InstallRequest::NoSubcommand,
            InstallRequest::Install { toolchain } => InstallRequest::Install {
                toolchain: toolchain.clone(),
            },
        }
    }
}

impl Clone for ManagerReply {
    fn clone(&self) -> (copy: ManagerReply)
        ensures
            copy@ == self@,
    {
        match self {
            ManagerReply::NotLaunched => ManagerReply::NotLaunched,
            ManagerReply::Exited { code, stdout } => ManagerReply::Exited {
                code: *code,
                stdout: stdout.clone(),
            },
        }
    }
}

impl Clone for InstallationPlan {
    fn clone(&self) -> (copy: InstallationPlan)
        ensures
            copy@ == self@,
    {
        InstallationPlan {
            original: self.original.clone(),
            backup: self.backup.clone(),
            source: self.source.clone(),
        }
    }
}

impl Clone for InstallEvent {
    fn clone(&self) -> (copy: InstallEvent)
        ensures
            copy@ == self@,
    {
        match self {
            InstallEvent::Invoked(request) => InstallEvent::Invoked(request.clone()),
            InstallEvent::ManagerReplied(reply) => InstallEvent::ManagerReplied(reply.clone()),
            InstallEvent::Probed { original_exists, backup_exists } => InstallEvent::Probed {
                original_exists: *original_exists,
                backup_exists: *backup_exists,
            },
            InstallEvent::Copied { ok } => InstallEvent::Copied { ok: *ok },
        }
    }
}

impl Clone for InstallAction {
    fn clone(&self) -> (copy: InstallAction)
        ensures
            copy@ == self@,
    {
        match self {
            InstallAction::ParseArguments => InstallAction::ParseArguments,
            InstallAction::RunManager { args } => InstallAction::RunManager {
                args: clone_strings(args),
            },
            InstallAction::Probe { original, backup } => InstallAction::Probe {
                original: original.clone(),
                backup: backup.clone(),
            },
            InstallAction::Copy { from, to } => InstallAction::Copy {
                from: from.clone(),
                to: to.clone(),
            },
            InstallAction::ShowUsage => InstallAction::ShowUsage,
            InstallAction::Exit { code } => InstallAction::Exit { code: *code },
        }
    }
}

impl Clone for InstallState {
    fn clone(&self) -> (copy: InstallState)
        ensures
            copy@ == self@,
    {
        match self {
            InstallState::Start => InstallState::Start,
            InstallState::AwaitingManager { toolchain } => InstallState::AwaitingManager {
                toolchain: toolchain.clone(),
            },
            InstallState::AwaitingProbe { plan } => InstallState::AwaitingProbe {
                plan: plan.clone(),
            },
            InstallState::AwaitingBackup { plan } => InstallState::AwaitingBackup {
                plan: plan.clone(),
            },
            InstallState::AwaitingOverwrite { plan } => InstallState::AwaitingOverwrite {
                plan: plan.clone(),
            },
            InstallState::Installed => InstallState::Installed,
            InstallState::Usage => InstallState::Usage,
            InstallState::Failed { error } => InstallState::Failed { error: *error },
        }
    }
}

/// Builds the arguments of the query to the toolchain manager.
pub fn query_args(toolchain: &Option<String>) -> (args: Vec<String>)
    ensures
        args.deep_view() == manager_args(toolchain.deep_view()),
{
    let mut args: Vec<String> = Vec::new();
    match toolchain {
        Some(name) => {
            let mut selector = TOOLCHAIN_PREFIX.to_owned();
            selector.append(name.as_str());
            args.push(selector);
        },
        None => {},
    }
    args.push(WHICH_SUBCOMMAND.to_owned());
    args.push(SHADOWED_TOOL.to_owned());
    assert(args.deep_view() =~= manager_args(toolchain.deep_view()));
    args
}

/// Reads the installed path of the shadowed tool out of the manager's reply.
/// The path neither starts nor ends with whitespace.
pub fn installed_path(reply: &ManagerReply) -> (path: Result<String, Error>)
    ensures
        (match path {
            Ok(found) => Ok(found@),
            Err(error) => Err(error),
        }) == manager_result(reply@),
        path is Ok <==> (reply matches ManagerReply::Exited { code: Some(code), .. } && code == 0),
        path is Err ==> path->Err_0 == Error::ToolchainQueryFailure,
        path matches Ok(found) ==> (found@.len() > 0 ==> !is_white_space(found@.first())
            && !is_white_space(found@.last())),
{
    match reply {
        ManagerReply::Exited { code: Some(code), stdout } => {
            if *code == 0 {
                proof {
                    trimmed_has_bare_ends(stdout@);
                }
                Ok(trim(stdout.as_str()))
            } else {
                Err(Error::ToolchainQueryFailure)
            }
        },
        _ => Err(Error::ToolchainQueryFailure),
    }
}

impl InstallState {
    /// What the installer asks for in this state.
    pub fn action(&self) -> (action: InstallAction)
        ensures
            action@ == pending(self@),
    {
        match self {
            InstallState::Start => InstallAction::ParseArguments,
            InstallState::AwaitingManager { toolchain } => InstallAction::RunManager {
                args: query_args(toolchain),
            },
            InstallState::AwaitingProbe { plan } => InstallAction::Probe {
                original: plan.original.clone(),
                backup: plan.backup.clone(),
            },
            InstallState::AwaitingBackup { plan } => InstallAction::Copy {
                from: plan.original.clone(),
                to: plan.backup.clone(),
            },
            InstallState::AwaitingOverwrite { plan } => InstallAction::Copy {
                from: plan.source.clone(),
                to: plan.original.clone(),
            },
            InstallState::Installed => InstallAction::Exit { code: EXIT_SUCCESS },
            InstallState::Usage => InstallAction::ShowUsage,
            InstallState::Failed { error } => InstallAction::Exit { code: error.exit_code() },
        }
    }

    /// Whether the state ends the run.
    pub fn is_final(&self) -> (done: bool)
        ensures
            done == ends_run(self@),
    {
        match self {
            InstallState::Installed | InstallState::Usage | InstallState::Failed { .. } => true,
            _ => false,
        }
    }
}

impl CargoRedirectHelper {
    /// The plan for installing this executable over the tool at `original`.
    /// The backup path is the one beside `original` under the reserved name.
    fn plan(&self, original: String) -> (plan: InstallationPlan)
        ensures
            plan@ == plan_for(original@, self.my_path@),
    {
        let backup = sibling_path(original.as_str(), REDIRECTED_CARGO_NAME);
        InstallationPlan::new(original, backup, self.my_path.clone())
    }

    /// One step of the installation: takes the state and what the outside
    /// reported, and gives the next state with what to do in it.
    pub fn install(&self, state: InstallState, event: InstallEvent) -> (next: (
        InstallState,
        InstallAction,
    ))
        ensures
            next.0@ == next_state(self.my_path@, state@, event@),
            next.1@ == pending(next.0@),
    {
        let after = match (state, event) {
            (InstallState::Start, InstallEvent::Invoked(InstallRequest::NoSubcommand)) => {
                InstallState::Usage
            },
            (InstallState::Start, InstallEvent::Invoked(InstallRequest::Install { toolchain })) => {
                InstallState::AwaitingManager { toolchain }
            },
            (InstallState::AwaitingManager { .. }, InstallEvent::ManagerReplied(reply)) => {
                match installed_path(&reply) {
                    Ok(original) => InstallState::AwaitingProbe { plan: self.plan(original) },
                    Err(error) => InstallState::Failed { error },
                }
            },
            (
                InstallState::AwaitingProbe { plan },
                InstallEvent::Probed { original_exists, backup_exists },
            ) => {
                if !original_exists && !backup_exists {
                    InstallState::Failed { error: Error::MissingOriginalBinary }
                } else if !backup_exists {
                    InstallState::AwaitingBackup { plan }
                } else {
                    InstallState::AwaitingOverwrite { plan }
                }
            },
            (InstallState::AwaitingBackup { plan }, InstallEvent::Copied { ok }) => {
                if ok {
                    InstallState::AwaitingOverwrite { plan }
                } else {
                    InstallState::Failed { error: Error::CopyFailure }
                }
            },
            (InstallState::AwaitingOverwrite { .. }, InstallEvent::Copied { ok }) => {
                if ok {
                    InstallState::Installed
                } else {
                    InstallState::Failed { error: Error::CopyFailure }
                }
            },
            (state, _) => state,
        };
        let action = after.action();
        (after, action)
    }
}

} // verus!
