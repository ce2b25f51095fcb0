//! The dispatch decision and the rewriting of the forwarded arguments.

use crate::config::{build_target, ConfigFile};
use crate::error::{Error, EXIT_FAILURE};
use crate::identity::{CargoRedirectHelper, REDIRECTED_CARGO_NAME};
use crate::paths::{sibling_path, with_file_name_of};
use vstd::prelude::*;

verus! {

/// The subcommand that asks for a build.
pub const BUILD_KEYWORD: &'static str = "build";

/// The subcommand that asks for a cross build.
pub const XBUILD_KEYWORD: &'static str = "xbuild";

/// How an invocation is forwarded.
#[derive(Clone, Copy, Debug, PartialEq, Eq, Structural)]
pub enum DispatchMode {
    /// The declared target is the host: the arguments pass unchanged.
    Direct,
    /// The declared target differs from the host: the build is redirected.
    Redirect,
}

/// The mode for a declared target on a host: `Direct` when the two triples
/// are the same string, `Redirect` otherwise.
pub open spec fn mode_for(target: Seq<char>, host: Seq<char>) -> DispatchMode {
    if target == host {
        DispatchMode::Direct
    } else {
        DispatchMode::Redirect
    }
}

/// The mode that is asked for with and without a cross build.
pub open spec fn mode_when(as_xbuild: bool) -> DispatchMode {
    if as_xbuild {
        DispatchMode::Redirect
    } else {
        DispatchMode::Direct
    }
}

/// Decides how to forward: `Direct` exactly when `target` equals `host`,
/// character for character.
pub fn dispatch_mode(target: &str, host: &str) -> (mode: DispatchMode)
    ensures
        mode == mode_for(target@, host@),
        mode == DispatchMode::Direct <==> target@ == host@,
        mode == DispatchMode::Redirect <==> target@ != host@,
{
    let target = target.to_owned();
    let host = host.to_owned();
    if target == host {
        DispatchMode::Direct
    } else {
        DispatchMode::Redirect
    }
}

/// `index` is the place of the first token of `args` that equals `token`.
pub open spec fn is_first_occurrence(args: Seq<Seq<char>>, token: Seq<char>, index: int) -> bool {
    &&& 0 <= index < args.len()
    &&& args[index] == token
    &&& forall|j: int| 0 <= j < index ==> args[j] != token
}

/// The place of the first token of `args` that equals `token`, if there is one.
pub open spec fn first_occurrence(args: Seq<Seq<char>>, token: Seq<char>) -> Option<int> {
    if exists|i: int| is_first_occurrence(args, token, i) {
        Some(choose|i: int| is_first_occurrence(args, token, i))
    } else {
        None
    }
}

/// The forwarded arguments: in `Redirect` mode the first `build` becomes
/// `xbuild`; everything else, and everything in `Direct` mode, stays.
pub open spec fn forwarded(mode: DispatchMode, args: Seq<Seq<char>>) -> Seq<Seq<char>> {
    match (mode, first_occurrence(args, BUILD_KEYWORD@)) {
        (DispatchMode::Redirect, Some(index)) => args.update(index, XBUILD_KEYWORD@),
        _ => args,
    }
}

/// A token has at most one first occurrence.
pub proof fn first_occurrence_is_unique(args: Seq<Seq<char>>, token: Seq<char>, index: int)
    requires
        is_first_occurrence(args, token, index),
    ensures
        first_occurrence(args, token) == Some(index),
{
    let chosen = choose|i: int| is_first_occurrence(args, token, i);
    assert(is_first_occurrence(args, token, chosen));
    if chosen < index {
        assert(args[chosen] != token);
    } else if index < chosen {
        assert(args[index] != token);
    }
}

/// A token that occurs at `index` has a first occurrence, at `index` or
/// before it.
pub proof fn first_occurrence_exists(args: Seq<Seq<char>>, token: Seq<char>, index: int) -> (first:
    int)
    requires
        0 <= index < args.len(),
        args[index] == token,
    ensures
        is_first_occurrence(args, token, first),
        first <= index,
    decreases index,
{
    if exists|j: int| 0 <= j < index && args[j] == token {
        let earlier = choose|j: int| 0 <= j < index && args[j] == token;
        first_occurrence_exists(args, token, earlier)
    } else {
        index
    }
}

/// A sequence without the token has no first occurrence of it.
pub proof fn first_occurrence_of_absent(args: Seq<Seq<char>>, token: Seq<char>)
    requires
        forall|j: int| 0 <= j < args.len() ==> args[j] != token,
    ensures
        first_occurrence(args, token) is None,
{
}

/// Rewrites the arguments that follow the program name for the given mode.
pub fn forwarded_args(mode: DispatchMode, args: Vec<String>) -> (out: Vec<String>)
    ensures
        out.deep_view() == forwarded(mode, args.deep_view()),
{
    let mut out = args;
    if mode == DispatchMode::Direct {
        return out;
    }
    let build = BUILD_KEYWORD.to_owned();
    let mut i: usize = 0;
    while i < out.len()
        invariant
            out == args,
            mode == DispatchMode::Redirect,
            build@ == BUILD_KEYWORD@,
            i <= out.len(),
            forall|j: int| 0 <= j < i ==> out.deep_view()[j] != BUILD_KEYWORD@,
        decreases out.len() - i,
    {
        if out[i] == build {
            proof {
                first_occurrence_is_unique(args.deep_view(), BUILD_KEYWORD@, i as int);
            }
            out.set(i, XBUILD_KEYWORD.to_owned());
            assert(out.deep_view() =~= args.deep_view().update(i as int, XBUILD_KEYWORD@));
            return out;
        }
        i += 1;
    }
    proof {
        first_occurrence_of_absent(args.deep_view(), BUILD_KEYWORD@);
    }
    out
}

/// In `Redirect` mode exactly one token changes, and only where there is a
/// `build`: the first `build` becomes `xbuild`. The number of tokens, their
/// order and every other token stay. In `Direct` mode nothing changes.
pub proof fn redirect_substitutes_first_build_only(args: Seq<Seq<char>>)
    ensures
        forwarded(DispatchMode::Direct, args) == args,
        forwarded(DispatchMode::Redirect, args).len() == args.len(),
        forall|i: int|
            is_first_occurrence(args, BUILD_KEYWORD@, i) ==> #[trigger] forwarded(
                DispatchMode::Redirect,
                args,
            )[i] == XBUILD_KEYWORD@,
        forall|j: int|
            0 <= j < args.len() && !is_first_occurrence(args, BUILD_KEYWORD@, j)
                ==> #[trigger] forwarded(DispatchMode::Redirect, args)[j] == args[j],
        args.contains(BUILD_KEYWORD@) ==> exists|i: int|
            is_first_occurrence(args, BUILD_KEYWORD@, i),
        !args.contains(BUILD_KEYWORD@) ==> forwarded(DispatchMode::Redirect, args) == args,
{
    assert forall|i: int| is_first_occurrence(args, BUILD_KEYWORD@, i) implies #[trigger] forwarded(
        DispatchMode::Redirect,
        args,
    )[i] == XBUILD_KEYWORD@ by {
        first_occurrence_is_unique(args, BUILD_KEYWORD@, i);
    }
    if args.contains(BUILD_KEYWORD@) {
        let index = choose|i: int| 0 <= i < args.len() && args[i] == BUILD_KEYWORD@;
        let first = first_occurrence_exists(args, BUILD_KEYWORD@, index);
    } else {
        first_occurrence_of_absent(args, BUILD_KEYWORD@);
    }
}

/// What is started in place of this program: a binary and its arguments.
#[derive(Debug, PartialEq, Eq)]
pub struct ForwardedInvocation {
    /// The path of the downstream binary.
    pub program: String,
    /// The arguments that it gets, without a program name.
    pub args: Vec<String>,
}

/// What a [`ForwardedInvocation`] holds.
pub struct InvocationView {
    pub program: Seq<char>,
    pub args: Seq<Seq<char>>,
}

impl View for ForwardedInvocation {
    type V = InvocationView;

    open spec fn view(&self) -> InvocationView {
        InvocationView { program: self.program@, args: self.args.deep_view() }
    }
}

impl ForwardedInvocation {
    /// The invocation of `program` with the arguments rewritten for `mode`.
    pub fn new(program: String, mode: DispatchMode, args: Vec<String>) -> (invocation:
        ForwardedInvocation)
        ensures
            invocation@ == (InvocationView {
                program: program@,
                args: forwarded(mode, args.deep_view()),
            }),
    {
        ForwardedInvocation { program, args: forwarded_args(mode, args) }
    }
}

/// How the downstream process ended.
#[derive(Clone, Copy, Debug, PartialEq, Eq, Structural)]
pub enum DownstreamOutcome {
    /// It could not be started.
    NotLaunched,
    /// It ran and exited with this code.
    Exited { code: i32 },
    /// It ran and ended without an exit code, as a process does that a signal
    /// kills.
    Terminated,
}

/// The exit code that stands for a downstream process that ended without one.
pub const TERMINATED_EXIT_CODE: i32 = EXIT_FAILURE;

/// The exit code of the dispatcher for the way the downstream process ended:
/// the downstream exit code where there is one, [`TERMINATED_EXIT_CODE`]
/// where the process ended without one, and a launch failure where it never
/// ran.
pub open spec fn propagated(outcome: DownstreamOutcome) -> Result<i32, Error> {
    match outcome {
        DownstreamOutcome::NotLaunched => Err(Error::LaunchFailure),
        DownstreamOutcome::Exited { code } => Ok(code),
        DownstreamOutcome::Terminated => Ok(TERMINATED_EXIT_CODE),
    }
}

/// Chooses the exit code of the dispatcher once the downstream process is
/// over.
pub fn propagate_exit(outcome: DownstreamOutcome) -> (code: Result<i32, Error>)
    ensures
        code == propagated(outcome),
        outcome is NotLaunched <==> code is Err,
        outcome is Terminated ==> code is Ok && code->Ok_0 != 0,
{
    match outcome {
        DownstreamOutcome::NotLaunched => Err(Error::LaunchFailure),
        DownstreamOutcome::Exited { code } => Ok(code),
        DownstreamOutcome::Terminated => Ok(TERMINATED_EXIT_CODE),
    }
}

/// Where the real `cargo` lies for an executable at `my_path`: beside it,
/// under the reserved name.
pub open spec fn real_cargo_path(my_path: Seq<char>) -> Seq<char> {
    with_file_name_of(my_path, REDIRECTED_CARGO_NAME@)
}

/// A dispatch that was decided: the build target that was read, the mode that
/// follows from it, and what is started.
#[derive(Debug, PartialEq, Eq)]
pub struct Dispatch {
    /// The build target.
    pub target: String,
    /// How the invocation is forwarded.
    pub mode: DispatchMode,
    /// What is started.
    pub invocation: ForwardedInvocation,
}

/// What a [`Dispatch`] holds.
pub struct DispatchView {
    pub target: Seq<char>,
    pub mode: DispatchMode,
    pub invocation: InvocationView,
}

impl View for Dispatch {
    type V = DispatchView;

    open spec fn view(&self) -> DispatchView {
        DispatchView { target: self.target@, mode: self.mode, invocation: self.invocation@ }
    }
}

/// The dispatch of an invocation with these arguments, by an executable at
/// `my_path` on `host`, for a build target: the mode is `Direct` exactly when
/// the target is the host, the real `cargo` is started, and the arguments are
/// rewritten for the mode.
pub open spec fn dispatch_for(
    my_path: Seq<char>,
    host: Seq<char>,
    target: Seq<char>,
    args: Seq<Seq<char>>,
) -> DispatchView {
    DispatchView {
        target,
        mode: mode_for(target, host),
        invocation: InvocationView {
            program: real_cargo_path(my_path),
            args: forwarded(mode_for(target, host), args),
        },
    }
}

impl CargoRedirectHelper {
    /// Prepares the invocation of the real `cargo`, which lies beside this
    /// executable under the reserved name. With `as_xbuild` the arguments are
    /// rewritten for a cross build; without it they pass unchanged.
    pub fn run_real_cargo(&self, as_xbuild: bool, args: Vec<String>) -> (invocation:
        ForwardedInvocation)
        ensures
            invocation@ == (InvocationView {
                program: real_cargo_path(self.my_path@),
                args: forwarded(mode_when(as_xbuild), args.deep_view()),
            }),
    {
        let mode = if as_xbuild {
            DispatchMode::Redirect
        } else {
            DispatchMode::Direct
        };
        let program = sibling_path(self.my_path.as_str(), REDIRECTED_CARGO_NAME);
        ForwardedInvocation::new(program, mode, args)
    }

    /// Decides how to forward an invocation with these arguments: reads the
    /// build target out of the configuration, compares it with the host, and
    /// prepares the invocation of the real `cargo` for the mode that follows.
    /// Fails exactly when the configuration file exists and cannot be read.
    pub fn run_cargo(&self, config: &ConfigFile, args: Vec<String>) -> (dispatch: Result<
        Dispatch,
        Error,
    >)
        ensures
            (match build_target(config@, self.my_host_triple@) {
                Ok(target) => dispatch is Ok && dispatch->Ok_0@ == dispatch_for(
                    self.my_path@,
                    self.my_host_triple@,
                    target,
                    args.deep_view(),
                ),
                Err(error) => dispatch is Err && dispatch->Err_0 == error,
            }),
    {
        match self.get_cargo_config_build_target(config) {
            Ok(target) => {
                let mode = dispatch_mode(target.as_str(), self.my_host_triple.as_str());
                let invocation = self.run_real_cargo(mode == DispatchMode::Redirect, args);
                Ok(Dispatch { target, mode, invocation })
            },
            Err(error) => Err(error),
        }
    }
}

} // verus!
