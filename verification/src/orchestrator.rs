//! The isolated build of a driver: its operations in order, and the texts
//! that the build tool is handed.
//!
//! The build is a step function like the lookup: the caller performs the
//! pending operation and reports whether it succeeded.

use vstd::prelude::*;
use vstd::string::*;
use crate::error::Failure;

verus! {

/// The operations of a build, in the order in which they are performed.
#[derive(Clone, Copy, Debug, PartialEq, Eq, Structural)]
pub enum BuildPhase {
    /// Create a fresh temporary directory as the workspace.
    CreateWorkspace,
    /// Write the manifest into the workspace.
    WriteManifest,
    /// Write the toolchain pin into the workspace.
    WriteToolchainPin,
    /// Create the source directory of the workspace.
    CreateSourceDirectory,
    /// Write the entry point into the source directory.
    WriteEntryPoint,
    /// Ask the build tool where its output goes.
    ReadMetadata,
    /// Find where the toolchain is installed.
    ResolveToolchain,
    /// Run the build tool in the workspace.
    Compile,
    /// Copy the built driver into its slot in the cache.
    CopyArtifact,
}

/// How a build ended.
#[derive(Clone, Copy, Debug, PartialEq, Eq, Structural)]
pub enum BuildOutcome {
    Built,
    Failed(Failure),
}

/// Where a build stands.
#[derive(Clone, Copy, Debug, PartialEq, Eq, Structural)]
pub enum BuildState {
    /// The outcome of this operation is awaited.
    Running(BuildPhase),
    /// The workspace is being removed; the build has ended as given.
    Removing(BuildOutcome),
    Finished,
}

/// The outcome of an operation that the build asked for.
#[derive(Clone, Copy, Debug, PartialEq, Eq, Structural)]
pub enum BuildEvent {
    Succeeded,
    Failed,
}

/// What the caller is to do next during a build.
#[derive(Clone, Copy, Debug, PartialEq, Eq, Structural)]
pub enum BuildAction {
    Perform(BuildPhase),
    /// Remove the workspace and all that it holds.
    RemoveWorkspace,
    /// The driver is in its slot.
    Return,
    /// The build failed.
    Fail(Failure),
}

/// The position of an operation in the order of the build.
pub open spec fn phase_rank(phase: BuildPhase) -> int {
    match phase {
        BuildPhase::CreateWorkspace => 0,
        BuildPhase::WriteManifest => 1,
        BuildPhase::WriteToolchainPin => 2,
        BuildPhase::CreateSourceDirectory => 3,
        BuildPhase::WriteEntryPoint => 4,
        BuildPhase::ReadMetadata => 5,
        BuildPhase::ResolveToolchain => 6,
        BuildPhase::Compile => 7,
        BuildPhase::CopyArtifact => 8,
    }
}

/// The failure that a build ends with when the given operation fails.
pub open spec fn failure_of(phase: BuildPhase) -> Failure {
    match phase {
        BuildPhase::CreateWorkspace => Failure::CreateWorkspace,
        BuildPhase::WriteManifest | BuildPhase::WriteToolchainPin | BuildPhase::WriteEntryPoint =>
            Failure::WriteFile,
        BuildPhase::CreateSourceDirectory => Failure::CreateDirectory,
        BuildPhase::ReadMetadata => Failure::Metadata,
        BuildPhase::ResolveToolchain => Failure::ToolchainNotInstalled,
        BuildPhase::Compile => Failure::BuildFailed,
        BuildPhase::CopyArtifact => Failure::CopyArtifact,
    }
}

/// The step of a build in `state` on `event`: a success leads to the
/// operation of the next rank, and after the last one to the removal of the
/// workspace; a failure leads to the removal at once, or to the end where no
/// workspace was created. The removal is followed by the end, however it
/// went.
pub open spec fn build_next(state: BuildState, event: BuildEvent) -> (BuildState, BuildAction) {
    match state {
        BuildState::Running(phase) => if event == BuildEvent::Succeeded {
            if phase == BuildPhase::CopyArtifact {
                (BuildState::Removing(BuildOutcome::Built), BuildAction::RemoveWorkspace)
            } else {
                let next = choose|next: BuildPhase| phase_rank(next) == phase_rank(phase) + 1;
                (BuildState::Running(next), BuildAction::Perform(next))
            }
        } else if phase == BuildPhase::CreateWorkspace {
            (BuildState::Finished, BuildAction::Fail(Failure::CreateWorkspace))
        } else {
            (
                BuildState::Removing(BuildOutcome::Failed(failure_of(phase))),
                BuildAction::RemoveWorkspace,
            )
        },
        BuildState::Removing(BuildOutcome::Built) => (BuildState::Finished, BuildAction::Return),
        BuildState::Removing(BuildOutcome::Failed(e)) => (
            BuildState::Finished,
            BuildAction::Fail(e),
        ),
        BuildState::Finished => (BuildState::Finished, BuildAction::Fail(Failure::UnexpectedEvent)),
    }
}

/// The linker flags that make the driver find the toolchain's libraries
/// wherever the driver is copied: the search path is absolute.
pub open spec fn rustflags_text(toolchain_path: Seq<char>) -> Seq<char> {
    "-C link-args=-Wl,-rpath,"@ + toolchain_path + "/lib"@
}

/// The file name under which the build tool leaves the driver.
pub open spec fn binary_name_text(toolchain: Seq<char>, exe_suffix: Seq<char>) -> Seq<char> {
    "dylint_driver-"@ + toolchain + exe_suffix
}

/// Whether the build tool must not inherit the variable `name`.
pub open spec fn is_cleared(name: Seq<char>) -> bool {
    name == "RUSTC"@ || name == "RUSTUP_TOOLCHAIN"@ || name == "RUSTFLAGS"@
}

/// The variables of `env` by name and value.
pub open spec fn pairs(env: Seq<(String, String)>) -> Seq<(Seq<char>, Seq<char>)> {
    Seq::new(env.len(), |i: int| (env[i].0@, env[i].1@))
}

/// `env` without the variables that the build tool must not inherit, the
/// others in their order.
pub open spec fn sanitized(env: Seq<(Seq<char>, Seq<char>)>) -> Seq<(Seq<char>, Seq<char>)>
    decreases env.len(),
{
    if env.len() == 0 {
        env
    } else if is_cleared(env.last().0) {
        sanitized(env.drop_last())
    } else {
        sanitized(env.drop_last()).push(env.last())
    }
}

/// Starts a build: the workspace is created first.
pub fn build_start() -> (r: (BuildState, BuildAction))
    ensures
        r == (
            BuildState::Running(BuildPhase::CreateWorkspace),
            BuildAction::Perform(BuildPhase::CreateWorkspace),
        ),
{
    (
        BuildState::Running(BuildPhase::CreateWorkspace),
        BuildAction::Perform(BuildPhase::CreateWorkspace),
    )
}

/// The operation that follows `phase`, if any does.
pub fn following(phase: BuildPhase) -> (r: Option<BuildPhase>)
    ensures
        r is None <==> phase == BuildPhase::CopyArtifact,
        r is Some ==> phase_rank(r->Some_0) == phase_rank(phase) + 1,
{
    match phase {
        BuildPhase::CreateWorkspace => Some(BuildPhase::WriteManifest),
        BuildPhase::WriteManifest => Some(BuildPhase::WriteToolchainPin),
        BuildPhase::WriteToolchainPin => Some(BuildPhase::CreateSourceDirectory),
        BuildPhase::CreateSourceDirectory => Some(BuildPhase::WriteEntryPoint),
        BuildPhase::WriteEntryPoint => Some(BuildPhase::ReadMetadata),
        BuildPhase::ReadMetadata => Some(BuildPhase::ResolveToolchain),
        BuildPhase::ResolveToolchain => Some(BuildPhase::Compile),
        BuildPhase::Compile => Some(BuildPhase::CopyArtifact),
        BuildPhase::CopyArtifact => None,
    }
}

/// The failure that a build ends with when `phase` fails.
pub fn phase_failure(phase: BuildPhase) -> (r: Failure)
    ensures
        r == failure_of(phase),
{
    match phase {
        BuildPhase::CreateWorkspace => Failure::CreateWorkspace,
        BuildPhase::WriteManifest => Failure::WriteFile,
        BuildPhase::WriteToolchainPin => Failure::WriteFile,
        BuildPhase::CreateSourceDirectory => Failure::CreateDirectory,
        BuildPhase::WriteEntryPoint => Failure::WriteFile,
        BuildPhase::ReadMetadata => Failure::Metadata,
        BuildPhase::ResolveToolchain => Failure::ToolchainNotInstalled,
        BuildPhase::Compile => Failure::BuildFailed,
        BuildPhase::CopyArtifact => Failure::CopyArtifact,
    }
}

/// The rank determines the operation.
pub proof fn rank_is_injective(a: BuildPhase, b: BuildPhase)
    requires
        phase_rank(a) == phase_rank(b),
    ensures
        a == b,
{
}

/// Takes the outcome of the pending operation and answers with the next one.
pub fn build_step(state: BuildState, event: BuildEvent) -> (r: (BuildState, BuildAction))
    ensures
        r == build_next(state, event),
{
    match state {
        BuildState::Running(phase) => match event {
            BuildEvent::Succeeded => match following(phase) {
                Some(next) => {
                    proof {
                        let chosen = choose|n: BuildPhase| phase_rank(n) == phase_rank(phase) + 1;
                        rank_is_injective(chosen, next);
                    }
                    (BuildState::Running(next), BuildAction::Perform(next))
                },
                None => (BuildState::Removing(BuildOutcome::Built), BuildAction::RemoveWorkspace),
            },
            BuildEvent::Failed => match phase {
                BuildPhase::CreateWorkspace => (
                    BuildState::Finished,
                    BuildAction::Fail(Failure::CreateWorkspace),
                ),
                _ => (
                    BuildState::Removing(BuildOutcome::Failed(phase_failure(phase))),
                    BuildAction::RemoveWorkspace,
                ),
            },
        },
        BuildState::Removing(outcome) => match outcome {
            BuildOutcome::Built => (BuildState::Finished, BuildAction::Return),
            BuildOutcome::Failed(e) => (BuildState::Finished, BuildAction::Fail(e)),
        },
        BuildState::Finished => (BuildState::Finished, BuildAction::Fail(Failure::UnexpectedEvent)),
    }
}

/// Whether an action ends the build.
pub open spec fn ends(action: BuildAction) -> bool {
    action == BuildAction::Return || action is Fail
}

/// Every operation but the last has a successor, of the next rank.
pub proof fn successor_exists(phase: BuildPhase)
    requires
        phase != BuildPhase::CopyArtifact,
    ensures
        exists|next: BuildPhase| phase_rank(next) == phase_rank(phase) + 1,
{
    let next = match phase {
        BuildPhase::CreateWorkspace => BuildPhase::WriteManifest,
        BuildPhase::WriteManifest => BuildPhase::WriteToolchainPin,
        BuildPhase::WriteToolchainPin => BuildPhase::CreateSourceDirectory,
        BuildPhase::CreateSourceDirectory => BuildPhase::WriteEntryPoint,
        BuildPhase::WriteEntryPoint => BuildPhase::ReadMetadata,
        BuildPhase::ReadMetadata => BuildPhase::ResolveToolchain,
        BuildPhase::ResolveToolchain => BuildPhase::Compile,
        _ => BuildPhase::CopyArtifact,
    };
    assert(phase_rank(next) == phase_rank(phase) + 1);
}

/// A build never ends with its workspace in place: the action before an end
/// is the removal of the workspace, unless it is an end itself. A build that
/// ends with its first action has failed to create the workspace.
pub proof fn removal_precedes_the_end(state: BuildState, first: BuildEvent, second: BuildEvent)
    ensures
        ({
            let a = build_next(state, first);
            let b = build_next(a.0, second);
            &&& ends(b.1) ==> a.1 == BuildAction::RemoveWorkspace || ends(a.1)
            &&& state is Running && ends(a.1) ==> state == BuildState::Running(
                BuildPhase::CreateWorkspace,
            ) && a.1 == BuildAction::Fail(Failure::CreateWorkspace)
        }),
{
    if let BuildState::Running(phase) = state {
        if phase != BuildPhase::CopyArtifact {
            successor_exists(phase);
        }
    }
}

/// The driver is copied into the cache after a successful compilation, and
/// at no other time.
pub proof fn copy_follows_compilation(state: BuildState, event: BuildEvent)
    ensures
        build_next(state, event).1 == BuildAction::Perform(BuildPhase::CopyArtifact) <==> state
            == BuildState::Running(BuildPhase::Compile) && event == BuildEvent::Succeeded,
{
    if let BuildState::Running(phase) = state {
        if phase != BuildPhase::CopyArtifact {
            successor_exists(phase);
        }
    }
}

/// Once an operation has failed, no further operation is performed: the
/// workspace is removed where there is one, and the build ends with the
/// failure of that operation. In particular nothing is copied into the
/// cache.
pub proof fn failure_ends_the_build(phase: BuildPhase, second: BuildEvent, third: BuildEvent)
    ensures
        ({
            let a = build_next(BuildState::Running(phase), BuildEvent::Failed);
            let b = build_next(a.0, second);
            let c = build_next(b.0, third);
            &&& !(a.1 is Perform) && !(b.1 is Perform) && !(c.1 is Perform)
            &&& phase == BuildPhase::CreateWorkspace ==> a.1 == BuildAction::Fail(
                Failure::CreateWorkspace,
            )
            &&& phase != BuildPhase::CreateWorkspace ==> a.1 == BuildAction::RemoveWorkspace && b.1
                == BuildAction::Fail(failure_of(phase))
            &&& b.0 == BuildState::Finished
        }),
{
}

/// A build in which every operation succeeds performs the nine operations
/// in their order, removes the workspace and returns.
pub proof fn successful_build_runs_to_the_end(phase: BuildPhase, removal: BuildEvent)
    ensures
        ({
            let a = build_next(BuildState::Running(phase), BuildEvent::Succeeded);
            &&& phase != BuildPhase::CopyArtifact ==> a.0 is Running && a.1 == BuildAction::Perform(
                a.0->Running_0,
            ) && phase_rank(a.0->Running_0) == phase_rank(phase) + 1
            &&& phase == BuildPhase::CopyArtifact ==> a.1 == BuildAction::RemoveWorkspace
                && build_next(a.0, removal) == (BuildState::Finished, BuildAction::Return)
        }),
{
    if phase != BuildPhase::CopyArtifact {
        successor_exists(phase);
    }
}

/// The actions that a build asks for, one after the other, when it starts
/// in `state` and is told `events`.
pub open spec fn build_actions(state: BuildState, events: Seq<BuildEvent>) -> Seq<BuildAction>
    decreases events.len(),
{
    if events.len() == 0 {
        Seq::empty()
    } else {
        let step = build_next(state, events[0]);
        seq![step.1] + build_actions(step.0, events.skip(1))
    }
}

/// One action is asked for on each event of a build.
pub proof fn one_build_action_per_event(state: BuildState, events: Seq<BuildEvent>)
    ensures
        build_actions(state, events).len() == events.len(),
    decreases events.len(),
{
    if events.len() > 0 {
        one_build_action_per_event(build_next(state, events[0]).0, events.skip(1));
    }
}

/// In every run of a build, whatever is reported to it, an end is preceded
/// by the removal of the workspace or by another end.
pub proof fn workspace_is_removed_before_the_end(
    state: BuildState,
    events: Seq<BuildEvent>,
    j: int,
)
    requires
        1 <= j < events.len(),
    ensures
        build_actions(state, events).len() == events.len(),
        ends(build_actions(state, events)[j]) ==> build_actions(state, events)[j - 1]
            == BuildAction::RemoveWorkspace || ends(build_actions(state, events)[j - 1]),
    decreases events.len(),
{
    one_build_action_per_event(state, events);
    let step = build_next(state, events[0]);
    let rest = events.skip(1);
    one_build_action_per_event(step.0, rest);
    if j == 1 {
        removal_precedes_the_end(state, events[0], events[1]);
        one_build_action_per_event(build_next(step.0, rest[0]).0, rest.skip(1));
        assert(build_actions(step.0, rest)[0] == build_next(step.0, rest[0]).1);
    } else {
        workspace_is_removed_before_the_end(step.0, rest, j - 1);
    }
}

/// Once the workspace is being removed or the build is over, no operation
/// is performed.
pub proof fn nothing_is_performed_after_removal(
    state: BuildState,
    events: Seq<BuildEvent>,
    j: int,
)
    requires
        !(state is Running),
        0 <= j < events.len(),
    ensures
        build_actions(state, events).len() == events.len(),
        !(build_actions(state, events)[j] is Perform),
    decreases events.len(),
{
    one_build_action_per_event(state, events);
    if j > 0 {
        let step = build_next(state, events[0]);
        one_build_action_per_event(step.0, events.skip(1));
        nothing_is_performed_after_removal(step.0, events.skip(1), j - 1);
    }
}

/// In every run of a build, no operation is performed after one has
/// failed: in particular, a build in which anything failed copies nothing
/// into the cache afterwards.
pub proof fn nothing_is_performed_after_a_failure(
    state: BuildState,
    events: Seq<BuildEvent>,
    i: int,
    j: int,
)
    requires
        0 <= i <= j < events.len(),
        events[i] == BuildEvent::Failed,
    ensures
        build_actions(state, events).len() == events.len(),
        !(build_actions(state, events)[j] is Perform),
    decreases events.len(),
{
    one_build_action_per_event(state, events);
    let step = build_next(state, events[0]);
    one_build_action_per_event(step.0, events.skip(1));
    if i == 0 {
        if j > 0 {
            nothing_is_performed_after_removal(step.0, events.skip(1), j - 1);
        }
    } else {
        nothing_is_performed_after_a_failure(step.0, events.skip(1), i - 1, j - 1);
    }
}

/// Builds the linker flags for a toolchain that is installed at
/// `toolchain_path`.
pub fn rustflags(toolchain_path: &str) -> (text: String)
    ensures
        text@ == rustflags_text(toolchain_path@),
{
    let mut text = String::from_str("-C link-args=-Wl,-rpath,");
    text.append(toolchain_path);
    text.append("/lib");
    text
}

/// Builds the file name of the driver that the build tool leaves in its
/// debug output directory.
pub fn binary_name(toolchain: &str, exe_suffix: &str) -> (text: String)
    ensures
        text@ == binary_name_text(toolchain@, exe_suffix@),
{
    let mut text = String::from_str("dylint_driver-");
    text.append(toolchain);
    text.append(exe_suffix);
    text
}

/// Computes the whole environment of the build tool: the ambient variables
/// without those that could redirect the build, and the linker flags.
pub fn build_environment(ambient: &Vec<(String, String)>, flags: &str) -> (env: Vec<
    (String, String),
>)
    ensures
        pairs(env@) == sanitized(pairs(ambient@)).push(("RUSTFLAGS"@, flags@)),
{
    let rustc = String::from_str("RUSTC");
    let rustup_toolchain = String::from_str("RUSTUP_TOOLCHAIN");
    let rustflags_name = String::from_str("RUSTFLAGS");
    let mut env: Vec<(String, String)> = Vec::new();
    let mut i: usize = 0;
    assert(pairs(ambient@).take(0) =~= Seq::empty());
    assert(pairs(env@) =~= Seq::empty());
    while i < ambient.len()
        invariant
            i <= ambient.len(),
            rustc@ == "RUSTC"@,
            rustup_toolchain@ == "RUSTUP_TOOLCHAIN"@,
            rustflags_name@ == "RUSTFLAGS"@,
            pairs(env@) == sanitized(pairs(ambient@).take(i as int)),
        decreases ambient.len() - i,
    {
        let entry = &ambient[i];
        let cleared = entry.0 == rustc || entry.0 == rustup_toolchain || entry.0 == rustflags_name;
        proof {
            let before = pairs(ambient@).take(i as int);
            let now = pairs(ambient@).take(i + 1);
            assert(now.drop_last() =~= before);
            assert(now.last() == (entry.0@, entry.1@));
        }
        if !cleared {
            let ghost old_env = env@;
            env.push((entry.0.clone(), entry.1.clone()));
            assert(pairs(env@) =~= pairs(old_env).push((entry.0@, entry.1@)));
        }
        i += 1;
    }
    assert(pairs(ambient@).take(i as int) =~= pairs(ambient@));
    let ghost old_env = env@;
    env.push((rustflags_name, String::from_str(flags)));
    assert(pairs(env@) =~= pairs(old_env).push(("RUSTFLAGS"@, flags@)));
    env
}

/// The environment variable that carries the linker flags.
pub fn rustflags_variable() -> (name: &'static str)
    ensures
        name@ == "RUSTFLAGS"@,
{
    "RUSTFLAGS"
}

/// The path, below the workspace, of the file or directory that `phase`
/// creates, one component after the other; empty for the operations that
/// create nothing in the workspace.
pub open spec fn workspace_path_of(phase: BuildPhase) -> Seq<Seq<char>> {
    match phase {
        BuildPhase::WriteManifest => seq!["Cargo.toml"@],
        BuildPhase::WriteToolchainPin => seq!["rust-toolchain"@],
        BuildPhase::CreateSourceDirectory => seq!["src"@],
        BuildPhase::WriteEntryPoint => seq!["src"@, "main.rs"@],
        _ => Seq::empty(),
    }
}

/// The components of the path, below the workspace, that `phase` creates.
pub fn workspace_path(phase: BuildPhase) -> (path: Vec<&'static str>)
    ensures
        path@.len() == workspace_path_of(phase).len(),
        forall|i: int| 0 <= i < path@.len() ==> (#[trigger] path@[i])@ == workspace_path_of(phase)[i],
{
    let mut path: Vec<&'static str> = Vec::new();
    match phase {
        BuildPhase::WriteManifest => {
            path.push("Cargo.toml");
        },
        BuildPhase::WriteToolchainPin => {
            path.push("rust-toolchain");
        },
        BuildPhase::CreateSourceDirectory => {
            path.push("src");
        },
        BuildPhase::WriteEntryPoint => {
            path.push("src");
            path.push("main.rs");
        },
        _ => {},
    }
    path
}

/// The directory, below the build tool's target directory, in which the
/// driver is left.
pub fn output_directory() -> (name: &'static str)
    ensures
        name@ == "debug"@,
{
    "debug"
}

} // verus!
