//! A model of what surrounds the installer, and what holds of installing in
//! it: the files are a map from paths to contents, a copy is a byte copy, and
//! the command line and the toolchain manager answer the same way each time.

use crate::error::{Error, EXIT_FAILURE};
use crate::install::{
    backup_path, ends_run, manager_result, next_state, pending, ActionView, EventView, ReplyView,
    RequestView, StateView,
};
use vstd::prelude::*;

verus! {

/// The answers of the outside that do not depend on the files.
pub struct World {
    /// The path of the running executable.
    pub source: Seq<char>,
    /// What the command line asks for.
    pub request: RequestView,
    /// How the query to the toolchain manager ends.
    pub reply: ReplyView,
}

/// How the outside answers an action on the given files: the event that it
/// reports and the files afterwards. A copy succeeds exactly when its source
/// exists, and then the target holds what the source holds. There is no
/// answer to an action that ends the run.
pub open spec fn answer(world: World, files: Map<Seq<char>, Seq<u8>>, action: ActionView) -> Option<
    (EventView, Map<Seq<char>, Seq<u8>>),
> {
    match action {
        ActionView::ParseArguments => Some((EventView::Invoked(world.request), files)),
        ActionView::RunManager { .. } => Some((EventView::ManagerReplied(world.reply), files)),
        ActionView::Probe { original, backup } => Some(
            (
                EventView::Probed {
                    original_exists: files.dom().contains(original),
                    backup_exists: files.dom().contains(backup),
                },
                files,
            ),
        ),
        ActionView::Copy { from, to } => if files.dom().contains(from) {
            Some((EventView::Copied { ok: true }, files.insert(to, files[from])))
        } else {
            Some((EventView::Copied { ok: false }, files))
        },
        ActionView::ShowUsage => None,
        ActionView::Exit { .. } => None,
    }
}

/// Drives the installer from a state for at most `steps` steps: performs what
/// the state asks for, hands the answer to the installer, and goes on from
/// the state that it gives. The result is the state reached and the files
/// left.
pub open spec fn run(world: World, state: StateView, files: Map<Seq<char>, Seq<u8>>, steps: nat) -> (
    StateView,
    Map<Seq<char>, Seq<u8>>,
)
    decreases steps,
{
    if steps == 0 {
        (state, files)
    } else {
        match answer(world, files, pending(state)) {
            None => (state, files),
            Some((event, after)) => run(
                world,
                next_state(world.source, state, event),
                after,
                (steps - 1) as nat,
            ),
        }
    }
}

/// The most steps that an installation takes.
pub open spec fn install_steps() -> nat {
    5
}

/// One whole installation run on the given files.
pub open spec fn install_run(world: World, files: Map<Seq<char>, Seq<u8>>) -> (
    StateView,
    Map<Seq<char>, Seq<u8>>,
) {
    run(world, StateView::Start, files, install_steps())
}

/// The path at which the original is installed in a world whose query
/// succeeds.
pub open spec fn original_of(world: World) -> Seq<char> {
    manager_result(world.reply)->Ok_0
}

/// The path at which the original is kept in a world whose query succeeds.
pub open spec fn backup_of(world: World) -> Seq<char> {
    backup_path(original_of(world))
}

/// Every installation run comes to an end: it stops in a state that ends the
/// run, and the process then exits with zero exactly when nothing failed.
pub proof fn install_run_ends(world: World, files: Map<Seq<char>, Seq<u8>>)
    ensures
        ends_run(install_run(world, files).0),
        install_run(world, files).0 is Failed <==> pending(install_run(world, files).0)
            == (ActionView::Exit { code: EXIT_FAILURE }),
{
    reveal_with_fuel(run, 6);
}

/// When the query to the toolchain manager fails, the installation is given
/// up with a non-zero exit code and no file is changed.
pub proof fn failed_query_changes_nothing(world: World, files: Map<Seq<char>, Seq<u8>>)
    requires
        world.request is Install,
        manager_result(world.reply) is Err,
    ensures
        install_run(world, files).0 == (StateView::Failed { error: Error::ToolchainQueryFailure }),
        install_run(world, files).1 == files,
        pending(install_run(world, files).0) == (ActionView::Exit { code: EXIT_FAILURE }),
        EXIT_FAILURE != 0,
{
    reveal_with_fuel(run, 6);
}

/// When neither the original nor its backup exists, the installation is given
/// up with a non-zero exit code and no file is changed.
pub proof fn missing_original_changes_nothing(world: World, files: Map<Seq<char>, Seq<u8>>)
    requires
        world.request is Install,
        manager_result(world.reply) is Ok,
        !files.dom().contains(original_of(world)),
        !files.dom().contains(backup_of(world)),
    ensures
        install_run(world, files).0 == (StateView::Failed { error: Error::MissingOriginalBinary }),
        install_run(world, files).1 == files,
{
    reveal_with_fuel(run, 6);
}

/// A successful installation leaves at the original path a copy of the
/// running executable. Where there was no backup yet, the backup path now
/// holds what the original path held before; where there was one, and it is
/// not the original path itself, it holds what it held.
pub proof fn install_replaces_and_preserves(world: World, files: Map<Seq<char>, Seq<u8>>)
    requires
        install_run(world, files).0 is Installed,
    ensures
        world.request is Install,
        manager_result(world.reply) is Ok,
        ({
            let after = install_run(world, files).1;
            &&& after.dom().contains(original_of(world))
            &&& after.dom().contains(backup_of(world))
            &&& after.dom().contains(world.source)
            &&& after[original_of(world)] == after[world.source]
            &&& world.source != backup_of(world) ==> files.dom().contains(world.source)
                && after[world.source] == files[world.source]
            &&& !files.dom().contains(backup_of(world)) ==> files.dom().contains(original_of(world))
                && after[backup_of(world)] == files[original_of(world)]
            &&& files.dom().contains(backup_of(world)) && backup_of(world) != original_of(world)
                ==> after[backup_of(world)] == files[backup_of(world)]
        }),
{
    reveal_with_fuel(run, 6);
}

/// Installing is idempotent: after a successful installation a second run, in
/// the same world and on the files that the first one left, succeeds too and
/// leaves every file as it is. So the backup keeps its contents, and the
/// original path holds the copy of the executable that was installed last.
pub proof fn second_install_changes_nothing(world: World, files: Map<Seq<char>, Seq<u8>>)
    requires
        install_run(world, files).0 is Installed,
    ensures
        ({
            let once = install_run(world, files);
            let twice = install_run(world, once.1);
            &&& twice.0 is Installed
            &&& twice.1 == once.1
            &&& twice.1[backup_of(world)] == once.1[backup_of(world)]
            &&& twice.1[original_of(world)] == once.1[world.source]
        }),
{
    reveal_with_fuel(run, 6);
    install_replaces_and_preserves(world, files);
    let once = install_run(world, files);
    let twice = install_run(world, once.1);
    assert(twice.1 =~= once.1);
}

} // verus!
