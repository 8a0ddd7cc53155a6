//! The cache of drivers: where it lies, and what is done when a driver is
//! asked for.
//!
//! Both procedures are written as step functions. The caller performs the
//! pending operation on the file system and reports its outcome; the step
//! function answers with the next operation, or with the final result.

use vstd::prelude::*;
use crate::error::Failure;
use crate::text::version_token_of;
use crate::version::parsed;
use crate::version::staleness;
use crate::version::staleness_of;
use crate::version::version_precedes;
use crate::version::warning_owed;
use crate::version::Staleness;

verus! {

/// Which directory serves as the root of the cache.
#[derive(Clone, Copy, Debug, PartialEq, Eq, Structural)]
pub enum CacheRoot {
    /// The directory that the override names.
    Override,
    /// The directory of drivers under the user's home directory.
    Default,
}

/// The operation whose outcome the resolution of the cache root awaits.
#[derive(Clone, Copy, Debug, PartialEq, Eq, Structural)]
pub enum ResolveState {
    ReadingOverride,
    ProbingOverride,
    FindingHome,
    ProbingDefault,
    CreatingDefault,
    WritingReadme,
    Finished,
}

/// The outcome of an operation that the resolution asked for.
#[derive(Clone, Copy, Debug, PartialEq, Eq, Structural)]
pub enum ResolveEvent {
    OverrideSet,
    OverrideUnset,
    HomeFound,
    HomeMissing,
    IsDirectory,
    NotDirectory,
    Succeeded,
    Failed,
}

/// What the caller is to do next while the cache root is resolved.
#[derive(Clone, Copy, Debug, PartialEq, Eq, Structural)]
pub enum ResolveAction {
    /// Read the override from the environment.
    ReadOverride,
    /// Test whether the override names a directory.
    ProbeOverride,
    /// Look up the user's home directory.
    FindHome,
    /// Test whether the default root is a directory.
    ProbeDefault,
    /// Create the default root and the directories above it.
    CreateDefault,
    /// Write the explanatory file into the default root.
    WriteReadme,
    /// The root is resolved.
    Return(CacheRoot),
    /// The resolution failed.
    Fail(Failure),
}

/// The operation whose outcome the lookup of a driver awaits.
#[derive(Clone, Copy, Debug, PartialEq, Eq, Structural)]
pub enum GetState {
    ProbingDirectory,
    CreatingDirectory,
    ProbingDriver,
    QueryingVersion,
    Warning,
    Building,
    Finished,
}

/// The outcome of an operation that the lookup asked for.
pub enum GetEvent {
    Present,
    Absent,
    Succeeded,
    Failed,
    /// The build failed, for the given reason.
    BuildFailed(Failure),
    /// The driver ran, ended with a zero status or not, and printed this on
    /// its standard output.
    Exited { success: bool, stdout: Vec<u8> },
}

/// What the caller is to do next while a driver is looked up.
#[derive(Clone, Copy, Debug, PartialEq, Eq, Structural)]
pub enum GetAction {
    /// Test whether the toolchain's directory in the cache exists.
    ProbeDirectory,
    /// Create the toolchain's directory in the cache.
    CreateDirectory,
    /// Test whether the driver exists in its slot.
    ProbeDriver,
    /// Run the driver and ask for its version.
    QueryVersion,
    /// Warn that the driver's version could not be read; it is rebuilt.
    Warn,
    /// Build the driver into its slot.
    Build,
    /// The slot holds a current driver: hand out its path.
    Return,
    /// The lookup failed.
    Fail(Failure),
}

/// Whether an action creates or writes anything.
pub open spec fn resolve_writes(action: ResolveAction) -> bool {
    action == ResolveAction::CreateDefault || action == ResolveAction::WriteReadme
}

/// The step of the resolution in `state` on `event`.
pub open spec fn resolve_next(state: ResolveState, event: ResolveEvent) -> (
    ResolveState,
    ResolveAction,
) {
    match (state, event) {
        (ResolveState::ReadingOverride, ResolveEvent::OverrideSet) => (
            ResolveState::ProbingOverride,
            ResolveAction::ProbeOverride,
        ),
        (ResolveState::ReadingOverride, ResolveEvent::OverrideUnset) => (
            ResolveState::FindingHome,
            ResolveAction::FindHome,
        ),
        (ResolveState::ProbingOverride, ResolveEvent::IsDirectory) => (
            ResolveState::Finished,
            ResolveAction::Return(CacheRoot::Override),
        ),
        (ResolveState::ProbingOverride, ResolveEvent::NotDirectory) => (
            ResolveState::Finished,
            ResolveAction::Fail(Failure::OverrideNotDirectory),
        ),
        (ResolveState::FindingHome, ResolveEvent::HomeFound) => (
            ResolveState::ProbingDefault,
            ResolveAction::ProbeDefault,
        ),
        (ResolveState::FindingHome, ResolveEvent::HomeMissing) => (
            ResolveState::Finished,
            ResolveAction::Fail(Failure::HomeNotFound),
        ),
        (ResolveState::ProbingDefault, ResolveEvent::IsDirectory) => (
            ResolveState::Finished,
            ResolveAction::Return(CacheRoot::Default),
        ),
        (ResolveState::ProbingDefault, ResolveEvent::NotDirectory) => (
            ResolveState::CreatingDefault,
            ResolveAction::CreateDefault,
        ),
        (ResolveState::CreatingDefault, ResolveEvent::Succeeded) => (
            ResolveState::WritingReadme,
            ResolveAction::WriteReadme,
        ),
        (ResolveState::CreatingDefault, ResolveEvent::Failed) => (
            ResolveState::Finished,
            ResolveAction::Fail(Failure::CreateDirectory),
        ),
        (ResolveState::WritingReadme, ResolveEvent::Succeeded) => (
            ResolveState::Finished,
            ResolveAction::Return(CacheRoot::Default),
        ),
        (ResolveState::WritingReadme, ResolveEvent::Failed) => (
            ResolveState::Finished,
            ResolveAction::Fail(Failure::WriteFile),
        ),
        _ => (ResolveState::Finished, ResolveAction::Fail(Failure::UnexpectedEvent)),
    }
}

/// The actions that the resolution asks for, one after the other, when it
/// starts in `state` and is told `events`.
pub open spec fn resolve_actions(state: ResolveState, events: Seq<ResolveEvent>) -> Seq<
    ResolveAction,
>
    decreases events.len(),
{
    if events.len() == 0 {
        Seq::empty()
    } else {
        let step = resolve_next(state, events[0]);
        seq![step.1] + resolve_actions(step.0, events.skip(1))
    }
}

/// The step of the lookup in `state` on `event`, for a tool of version
/// `tool_version`.
pub open spec fn get_next(state: GetState, event: GetEvent, tool_version: Seq<char>) -> (
    GetState,
    GetAction,
) {
    match (state, event) {
        (GetState::ProbingDirectory, GetEvent::Present) => (
            GetState::ProbingDriver,
            GetAction::ProbeDriver,
        ),
        (GetState::ProbingDirectory, GetEvent::Absent) => (
            GetState::CreatingDirectory,
            GetAction::CreateDirectory,
        ),
        (GetState::CreatingDirectory, GetEvent::Succeeded) => (
            GetState::ProbingDriver,
            GetAction::ProbeDriver,
        ),
        (GetState::CreatingDirectory, GetEvent::Failed) => (
            GetState::Finished,
            GetAction::Fail(Failure::CreateDirectory),
        ),
        (GetState::ProbingDriver, GetEvent::Present) => (
            GetState::QueryingVersion,
            GetAction::QueryVersion,
        ),
        (GetState::ProbingDriver, GetEvent::Absent) => (GetState::Building, GetAction::Build),
        (GetState::QueryingVersion, GetEvent::Exited { success, stdout }) => if !success {
            (GetState::Finished, GetAction::Fail(Failure::VersionQuery))
        } else {
            match staleness_of(stdout@, tool_version) {
                Ok(Staleness::Current) => (GetState::Finished, GetAction::Return),
                Ok(Staleness::Older) => (GetState::Building, GetAction::Build),
                Ok(Staleness::Unreadable) => (GetState::Warning, GetAction::Warn),
                Err(e) => (GetState::Finished, GetAction::Fail(e)),
            }
        },
        (GetState::Warning, GetEvent::Succeeded) => (GetState::Building, GetAction::Build),
        (GetState::QueryingVersion, GetEvent::Failed) => (
            GetState::Finished,
            GetAction::Fail(Failure::VersionQuery),
        ),
        (GetState::Building, GetEvent::Succeeded) => (GetState::Finished, GetAction::Return),
        (GetState::Building, GetEvent::BuildFailed(e)) => (GetState::Finished, GetAction::Fail(e)),
        _ => (GetState::Finished, GetAction::Fail(Failure::UnexpectedEvent)),
    }
}

/// The actions that the lookup asks for, one after the other, when it starts
/// in `state` and is told `events`.
pub open spec fn get_actions(state: GetState, events: Seq<GetEvent>, tool_version: Seq<char>) -> Seq<
    GetAction,
>
    decreases events.len(),
{
    if events.len() == 0 {
        Seq::empty()
    } else {
        let step = get_next(state, events[0], tool_version);
        seq![step.1] + get_actions(step.0, events.skip(1), tool_version)
    }
}

/// One action is asked for on each event.
pub proof fn one_action_per_event(state: ResolveState, events: Seq<ResolveEvent>)
    ensures
        resolve_actions(state, events).len() == events.len(),
    decreases events.len(),
{
    if events.len() > 0 {
        one_action_per_event(resolve_next(state, events[0]).0, events.skip(1));
    }
}

/// Once the override is being probed, nothing is created or written,
/// whatever is reported afterwards.
pub proof fn probing_override_writes_nothing(
    state: ResolveState,
    events: Seq<ResolveEvent>,
    i: int,
)
    requires
        state == ResolveState::ProbingOverride || state == ResolveState::Finished,
        0 <= i < events.len(),
    ensures
        resolve_actions(state, events).len() == events.len(),
        !resolve_writes(resolve_actions(state, events)[i]),
    decreases events.len(),
{
    one_action_per_event(state, events);
    if i > 0 {
        let step = resolve_next(state, events[0]);
        one_action_per_event(step.0, events.skip(1));
        probing_override_writes_nothing(step.0, events.skip(1), i - 1);
    }
}

/// With the override set, the resolution creates no directory and writes no
/// file, whatever is reported to it; and where the override does not name a
/// directory it fails at once, for that reason.
pub proof fn override_decides_alone(events: Seq<ResolveEvent>, i: int)
    requires
        events.len() >= 1,
        events[0] == ResolveEvent::OverrideSet,
        0 <= i < events.len(),
    ensures
        resolve_actions(ResolveState::ReadingOverride, events).len() == events.len(),
        !resolve_writes(resolve_actions(ResolveState::ReadingOverride, events)[i]),
        events.len() >= 2 && events[1] == ResolveEvent::NotDirectory ==> resolve_actions(
            ResolveState::ReadingOverride,
            events,
        )[1] == ResolveAction::Fail(Failure::OverrideNotDirectory),
        events.len() >= 2 && events[1] == ResolveEvent::IsDirectory ==> resolve_actions(
            ResolveState::ReadingOverride,
            events,
        )[1] == ResolveAction::Return(CacheRoot::Override),
{
    reveal_with_fuel(resolve_actions, 3);
    one_action_per_event(ResolveState::ReadingOverride, events);
    one_action_per_event(ResolveState::ProbingOverride, events.skip(1));
    if i > 0 {
        probing_override_writes_nothing(ResolveState::ProbingOverride, events.skip(1), i - 1);
    }
}

/// How far the resolution has come.
pub open spec fn resolve_rank(state: ResolveState) -> int {
    match state {
        ResolveState::ReadingOverride => 0,
        ResolveState::ProbingOverride => 1,
        ResolveState::FindingHome => 1,
        ResolveState::ProbingDefault => 2,
        ResolveState::CreatingDefault => 3,
        ResolveState::WritingReadme => 4,
        ResolveState::Finished => 5,
    }
}

/// Every step of the resolution leads to a state of higher rank, or to the
/// end: no operation is asked for twice.
pub proof fn resolution_advances(state: ResolveState, event: ResolveEvent)
    ensures
        resolve_next(state, event).0 == ResolveState::Finished || resolve_rank(
            resolve_next(state, event).0,
        ) > resolve_rank(state),
{
}

/// Once the default root is being created, its creation is not asked for
/// again; once the explanatory file is being written, nothing more is
/// written.
pub proof fn late_states_do_not_create(state: ResolveState, events: Seq<ResolveEvent>, j: int)
    requires
        resolve_rank(state) >= 3,
        0 <= j < events.len(),
    ensures
        resolve_actions(state, events).len() == events.len(),
        resolve_actions(state, events)[j] != ResolveAction::CreateDefault,
        resolve_rank(state) >= 4 ==> !resolve_writes(resolve_actions(state, events)[j]),
    decreases events.len(),
{
    one_action_per_event(state, events);
    if j > 0 {
        let step = resolve_next(state, events[0]);
        one_action_per_event(step.0, events.skip(1));
        late_states_do_not_create(step.0, events.skip(1), j - 1);
    }
}

/// In no run of the resolution, from whatever state and on whatever events,
/// is the default root created twice or the explanatory file written twice.
pub proof fn root_is_created_at_most_once(
    state: ResolveState,
    events: Seq<ResolveEvent>,
    i: int,
    j: int,
)
    requires
        0 <= i < j < events.len(),
    ensures
        resolve_actions(state, events).len() == events.len(),
        resolve_writes(resolve_actions(state, events)[i]) ==> resolve_actions(state, events)[j]
            != resolve_actions(state, events)[i],
    decreases events.len(),
{
    one_action_per_event(state, events);
    let step = resolve_next(state, events[0]);
    one_action_per_event(step.0, events.skip(1));
    if i == 0 {
        if resolve_writes(step.1) {
            late_states_do_not_create(step.0, events.skip(1), j - 1);
        }
    } else {
        root_is_created_at_most_once(step.0, events.skip(1), i - 1, j - 1);
    }
}

/// Once the override is out of the question, the root that the resolution
/// returns is the default one.
pub proof fn later_root_is_default(state: ResolveState, events: Seq<ResolveEvent>, i: int)
    requires
        state != ResolveState::ReadingOverride,
        state != ResolveState::ProbingOverride,
        0 <= i < events.len(),
    ensures
        resolve_actions(state, events).len() == events.len(),
        resolve_actions(state, events)[i] != ResolveAction::Return(CacheRoot::Override),
    decreases events.len(),
{
    one_action_per_event(state, events);
    if i > 0 {
        let step = resolve_next(state, events[0]);
        one_action_per_event(step.0, events.skip(1));
        later_root_is_default(step.0, events.skip(1), i - 1);
    }
}

/// Without an override, every run of the resolution that returns a root
/// returns the same one, the default, whether or not the directory existed
/// before.
pub proof fn root_without_override_is_default(events: Seq<ResolveEvent>, i: int)
    requires
        events.len() >= 1,
        events[0] == ResolveEvent::OverrideUnset,
        0 <= i < events.len(),
    ensures
        resolve_actions(ResolveState::ReadingOverride, events).len() == events.len(),
        resolve_actions(ResolveState::ReadingOverride, events)[i] != ResolveAction::Return(
            CacheRoot::Override,
        ),
{
    one_action_per_event(ResolveState::ReadingOverride, events);
    one_action_per_event(ResolveState::FindingHome, events.skip(1));
    if i > 0 {
        later_root_is_default(ResolveState::FindingHome, events.skip(1), i - 1);
    }
}

/// Where the default root is probed and found to be a directory, it is
/// returned at once, and nothing is created or written, then or later.
pub proof fn existing_default_root_is_left_alone(events: Seq<ResolveEvent>, i: int)
    requires
        events.len() >= 1,
        events[0] == ResolveEvent::IsDirectory,
        0 <= i < events.len(),
    ensures
        resolve_actions(ResolveState::ProbingDefault, events).len() == events.len(),
        resolve_actions(ResolveState::ProbingDefault, events)[0] == ResolveAction::Return(
            CacheRoot::Default,
        ),
        !resolve_writes(resolve_actions(ResolveState::ProbingDefault, events)[i]),
{
    one_action_per_event(ResolveState::ProbingDefault, events);
    one_action_per_event(ResolveState::Finished, events.skip(1));
    if i > 0 {
        late_states_do_not_create(ResolveState::Finished, events.skip(1), i - 1);
    }
}

/// Where the default root is probed and found missing, it is created, the
/// explanatory file is written into it, and it is returned, as long as both
/// operations succeed.
pub proof fn missing_default_root_is_created(events: Seq<ResolveEvent>)
    requires
        events.len() == 3,
        events[0] == ResolveEvent::NotDirectory,
        events[1] == ResolveEvent::Succeeded,
        events[2] == ResolveEvent::Succeeded,
    ensures
        resolve_actions(ResolveState::ProbingDefault, events) == seq![
            ResolveAction::CreateDefault,
            ResolveAction::WriteReadme,
            ResolveAction::Return(CacheRoot::Default),
        ],
{
    reveal_with_fuel(resolve_actions, 5);
    one_action_per_event(ResolveState::ProbingDefault, events);
    assert(resolve_actions(ResolveState::ProbingDefault, events) =~= seq![
        ResolveAction::CreateDefault,
        ResolveAction::WriteReadme,
        ResolveAction::Return(CacheRoot::Default),
    ]);
}

/// A driver whose slot is empty is built, once, and then handed out.
pub proof fn missing_driver_is_built(tool_version: Seq<char>)
    ensures
        get_actions(
            GetState::ProbingDriver,
            seq![GetEvent::Absent, GetEvent::Succeeded],
            tool_version,
        ) == seq![GetAction::Build, GetAction::Return],
{
    reveal_with_fuel(get_actions, 4);
    let events = seq![GetEvent::Absent, GetEvent::Succeeded];
    assert(get_actions(GetState::ProbingDriver, events, tool_version) =~= seq![
        GetAction::Build,
        GetAction::Return,
    ]);
}

/// The slot of the driver is probed once the toolchain's directory exists,
/// whether it was found or had to be created.
pub proof fn directory_precedes_the_driver(tool_version: Seq<char>)
    ensures
        get_next(GetState::ProbingDirectory, GetEvent::Present, tool_version) == (
            GetState::ProbingDriver,
            GetAction::ProbeDriver,
        ),
        get_actions(
            GetState::ProbingDirectory,
            seq![GetEvent::Absent, GetEvent::Succeeded],
            tool_version,
        ) == seq![GetAction::CreateDirectory, GetAction::ProbeDriver],
{
    reveal_with_fuel(get_actions, 4);
    let events = seq![GetEvent::Absent, GetEvent::Succeeded];
    assert(get_actions(GetState::ProbingDirectory, events, tool_version) =~= seq![
        GetAction::CreateDirectory,
        GetAction::ProbeDriver,
    ]);
}

/// A driver that is present and current is handed out as it is: from the
/// probe of its slot to the end, nothing is built.
pub proof fn current_driver_is_a_hit(stdout: Vec<u8>, tool_version: Seq<char>)
    requires
        staleness_of(stdout@, tool_version) == Ok::<Staleness, Failure>(Staleness::Current),
    ensures
        get_actions(
            GetState::ProbingDriver,
            seq![GetEvent::Present, GetEvent::Exited { success: true, stdout }],
            tool_version,
        ) == seq![GetAction::QueryVersion, GetAction::Return],
{
    reveal_with_fuel(get_actions, 4);
    let events = seq![GetEvent::Present, GetEvent::Exited { success: true, stdout }];
    assert(get_actions(GetState::ProbingDriver, events, tool_version) =~= seq![
        GetAction::QueryVersion,
        GetAction::Return,
    ]);
}

/// A driver that reports a version strictly before the tool's is rebuilt,
/// exactly once, and then handed out.
pub proof fn stale_driver_is_rebuilt_once(stdout: Vec<u8>, tool_version: Seq<char>)
    requires
        version_token_of(stdout@) is Ok,
        parsed(version_token_of(stdout@)->Ok_0) is Some,
        parsed(tool_version) is Some,
        version_precedes(
            parsed(version_token_of(stdout@)->Ok_0)->Some_0,
            parsed(tool_version)->Some_0,
        ),
    ensures
        get_actions(
            GetState::ProbingDriver,
            seq![
                GetEvent::Present,
                GetEvent::Exited { success: true, stdout },
                GetEvent::Succeeded,
            ],
            tool_version,
        ) == seq![GetAction::QueryVersion, GetAction::Build, GetAction::Return],
{
    reveal_with_fuel(get_actions, 5);
    let events = seq![
        GetEvent::Present,
        GetEvent::Exited { success: true, stdout },
        GetEvent::Succeeded,
    ];
    assert(get_actions(GetState::ProbingDriver, events, tool_version) =~= seq![
        GetAction::QueryVersion,
        GetAction::Build,
        GetAction::Return,
    ]);
}

/// A driver whose output ends in a token that is no semantic version is
/// warned about and rebuilt, once, rather than reported as a failure,
/// whatever the tool's own version is.
pub proof fn unreadable_version_forces_rebuild(stdout: Vec<u8>, tool_version: Seq<char>)
    requires
        warning_owed(stdout@),
    ensures
        get_actions(
            GetState::ProbingDriver,
            seq![
                GetEvent::Present,
                GetEvent::Exited { success: true, stdout },
                GetEvent::Succeeded,
                GetEvent::Succeeded,
            ],
            tool_version,
        ) == seq![GetAction::QueryVersion, GetAction::Warn, GetAction::Build, GetAction::Return],
{
    reveal_with_fuel(get_actions, 6);
    let events = seq![
        GetEvent::Present,
        GetEvent::Exited { success: true, stdout },
        GetEvent::Succeeded,
        GetEvent::Succeeded,
    ];
    assert(get_actions(GetState::ProbingDriver, events, tool_version) =~= seq![
        GetAction::QueryVersion,
        GetAction::Warn,
        GetAction::Build,
        GetAction::Return,
    ]);
}

/// A warning is asked for exactly where one is owed: after a driver ran
/// with success and printed a version token that is no semantic version.
pub proof fn warning_is_asked_for_when_owed(state: GetState, event: GetEvent, tool_version: Seq<char>)
    ensures
        get_next(state, event, tool_version).1 == GetAction::Warn <==> (state
            == GetState::QueryingVersion && match event {
            GetEvent::Exited { success, stdout } => success && warning_owed(stdout@),
            _ => false,
        }),
{
}

/// A driver that ended with a non-zero status when asked for its version
/// fails the lookup, whatever it printed.
pub proof fn failed_query_fails_the_lookup(stdout: Vec<u8>, tool_version: Seq<char>)
    ensures
        get_next(
            GetState::QueryingVersion,
            GetEvent::Exited { success: false, stdout },
            tool_version,
        ) == (GetState::Finished, GetAction::Fail(Failure::VersionQuery)),
{
}

/// One action is asked for on each event of a lookup.
pub proof fn one_get_action_per_event(
    state: GetState,
    events: Seq<GetEvent>,
    tool_version: Seq<char>,
)
    ensures
        get_actions(state, events, tool_version).len() == events.len(),
    decreases events.len(),
{
    if events.len() > 0 {
        one_get_action_per_event(
            get_next(state, events[0], tool_version).0,
            events.skip(1),
            tool_version,
        );
    }
}

/// Once a build is under way or the lookup is over, no build is asked for.
pub proof fn no_build_after_building(
    state: GetState,
    events: Seq<GetEvent>,
    tool_version: Seq<char>,
    j: int,
)
    requires
        state == GetState::Building || state == GetState::Finished,
        0 <= j < events.len(),
    ensures
        get_actions(state, events, tool_version).len() == events.len(),
        get_actions(state, events, tool_version)[j] != GetAction::Build,
    decreases events.len(),
{
    one_get_action_per_event(state, events, tool_version);
    if j > 0 {
        let step = get_next(state, events[0], tool_version);
        one_get_action_per_event(step.0, events.skip(1), tool_version);
        no_build_after_building(step.0, events.skip(1), tool_version, j - 1);
    }
}

/// In no run of the lookup, from whatever state and on whatever events, is
/// the driver built twice.
pub proof fn driver_is_built_at_most_once(
    state: GetState,
    events: Seq<GetEvent>,
    tool_version: Seq<char>,
    i: int,
    j: int,
)
    requires
        0 <= i < j < events.len(),
    ensures
        get_actions(state, events, tool_version).len() == events.len(),
        get_actions(state, events, tool_version)[i] == GetAction::Build ==> get_actions(
            state,
            events,
            tool_version,
        )[j] != GetAction::Build,
    decreases events.len(),
{
    one_get_action_per_event(state, events, tool_version);
    let step = get_next(state, events[0], tool_version);
    one_get_action_per_event(step.0, events.skip(1), tool_version);
    if i == 0 {
        if step.1 == GetAction::Build {
            no_build_after_building(step.0, events.skip(1), tool_version, j - 1);
        }
    } else {
        driver_is_built_at_most_once(step.0, events.skip(1), tool_version, i - 1, j - 1);
    }
}

/// Starts the resolution of the cache root: the override is read first.
pub fn resolve_start() -> (r: (ResolveState, ResolveAction))
    ensures
        r == (ResolveState::ReadingOverride, ResolveAction::ReadOverride),
{
    (ResolveState::ReadingOverride, ResolveAction::ReadOverride)
}

/// Takes the outcome of the pending operation and answers with the next one.
///
/// An override that is set decides alone: it is the root if it names a
/// directory, and the resolution fails if it does not. Without an override
/// the root lies under the home directory; it is created, and the
/// explanatory file written into it, only where it is not yet a directory.
pub fn resolve_step(state: ResolveState, event: ResolveEvent) -> (r: (ResolveState, ResolveAction))
    ensures
        r == resolve_next(state, event),
{
    let unexpected = (ResolveState::Finished, ResolveAction::Fail(Failure::UnexpectedEvent));
    match state {
        ResolveState::ReadingOverride => match event {
            ResolveEvent::OverrideSet => (
                ResolveState::ProbingOverride,
                ResolveAction::ProbeOverride,
            ),
            ResolveEvent::OverrideUnset => (ResolveState::FindingHome, ResolveAction::FindHome),
            _ => unexpected,
        },
        ResolveState::ProbingOverride => match event {
            ResolveEvent::IsDirectory => (
                ResolveState::Finished,
                ResolveAction::Return(CacheRoot::Override),
            ),
            ResolveEvent::NotDirectory => (
                ResolveState::Finished,
                ResolveAction::Fail(Failure::OverrideNotDirectory),
            ),
            _ => unexpected,
        },
        ResolveState::FindingHome => match event {
            ResolveEvent::HomeFound => (ResolveState::ProbingDefault, ResolveAction::ProbeDefault),
            ResolveEvent::HomeMissing => (
                ResolveState::Finished,
                ResolveAction::Fail(Failure::HomeNotFound),
            ),
            _ => unexpected,
        },
        ResolveState::ProbingDefault => match event {
            ResolveEvent::IsDirectory => (
                ResolveState::Finished,
                ResolveAction::Return(CacheRoot::Default),
            ),
            ResolveEvent::NotDirectory => (
                ResolveState::CreatingDefault,
                ResolveAction::CreateDefault,
            ),
            _ => unexpected,
        },
        ResolveState::CreatingDefault => match event {
            ResolveEvent::Succeeded => (ResolveState::WritingReadme, ResolveAction::WriteReadme),
            ResolveEvent::Failed => (
                ResolveState::Finished,
                ResolveAction::Fail(Failure::CreateDirectory),
            ),
            _ => unexpected,
        },
        ResolveState::WritingReadme => match event {
            ResolveEvent::Succeeded => (
                ResolveState::Finished,
                ResolveAction::Return(CacheRoot::Default),
            ),
            ResolveEvent::Failed => (ResolveState::Finished, ResolveAction::Fail(Failure::WriteFile)),
            _ => unexpected,
        },
        ResolveState::Finished => unexpected,
    }
}

/// Starts the lookup of a driver: the toolchain's directory is probed first.
pub fn get_start() -> (r: (GetState, GetAction))
    ensures
        r == (GetState::ProbingDirectory, GetAction::ProbeDirectory),
{
    (GetState::ProbingDirectory, GetAction::ProbeDirectory)
}

/// Takes the outcome of the pending operation and answers with the next one.
///
/// The toolchain's directory is created where it is missing. A driver is
/// built where its slot is empty, and where the driver in it is out of date
/// for a tool of version `tool_version`; a warning comes first where its
/// version could not be read. A driver that ended with a non-zero status
/// when asked for its version fails the lookup. Every failure ends the
/// lookup; that of a build is handed on unchanged.
pub fn get_step(state: GetState, event: &GetEvent, tool_version: &str) -> (r: (GetState, GetAction))
    ensures
        r == get_next(state, *event, tool_version@),
{
    let unexpected = (GetState::Finished, GetAction::Fail(Failure::UnexpectedEvent));
    match state {
        GetState::ProbingDirectory => match event {
            GetEvent::Present => (GetState::ProbingDriver, GetAction::ProbeDriver),
            GetEvent::Absent => (GetState::CreatingDirectory, GetAction::CreateDirectory),
            _ => unexpected,
        },
        GetState::CreatingDirectory => match event {
            GetEvent::Succeeded => (GetState::ProbingDriver, GetAction::ProbeDriver),
            GetEvent::Failed => (GetState::Finished, GetAction::Fail(Failure::CreateDirectory)),
            _ => unexpected,
        },
        GetState::ProbingDriver => match event {
            GetEvent::Present => (GetState::QueryingVersion, GetAction::QueryVersion),
            GetEvent::Absent => (GetState::Building, GetAction::Build),
            _ => unexpected,
        },
        GetState::QueryingVersion => match event {
            GetEvent::Exited { success, stdout } => if !*success {
                (GetState::Finished, GetAction::Fail(Failure::VersionQuery))
            } else {
                match staleness(stdout.as_slice(), tool_version) {
                    Ok(Staleness::Current) => (GetState::Finished, GetAction::Return),
                    Ok(Staleness::Older) => (GetState::Building, GetAction::Build),
                    Ok(Staleness::Unreadable) => (GetState::Warning, GetAction::Warn),
                    Err(e) => (GetState::Finished, GetAction::Fail(e)),
                }
            },
            GetEvent::Failed => (GetState::Finished, GetAction::Fail(Failure::VersionQuery)),
            _ => unexpected,
        },
        GetState::Warning => match event {
            GetEvent::Succeeded => (GetState::Building, GetAction::Build),
            _ => unexpected,
        },
        GetState::Building => match event {
            GetEvent::Succeeded => (GetState::Finished, GetAction::Return),
            GetEvent::BuildFailed(e) => (GetState::Finished, GetAction::Fail(*e)),
            _ => unexpected,
        },
        GetState::Finished => unexpected,
    }
}

/// The environment variable that overrides the root of the cache.
pub fn override_variable() -> (name: &'static str)
    ensures
        name@ == "DYLINT_DRIVER_PATH"@,
{
    "DYLINT_DRIVER_PATH"
}

/// The name of the default root, under the home directory.
pub fn drivers_directory() -> (name: &'static str)
    ensures
        name@ == ".dylint_drivers"@,
{
    ".dylint_drivers"
}

/// The name of the explanatory file in the default root.
pub fn readme_name() -> (name: &'static str)
    ensures
        name@ == "README.txt"@,
{
    "README.txt"
}

/// The text of the explanatory file in the default root.
pub fn readme_text() -> (text: &'static str)
    ensures
        text@
            == "\nThis directory contains Rust compiler drivers used by Dylint\n(https://github.com/trailofbits/dylint).\n\nDeleting this directory will cause Dylint to rebuild the drivers\nthe next time it needs them, but will have no ill effects.\n"@,
{
    "\nThis directory contains Rust compiler drivers used by Dylint\n(https://github.com/trailofbits/dylint).\n\nDeleting this directory will cause Dylint to rebuild the drivers\nthe next time it needs them, but will have no ill effects.\n"
}

/// The file name of a driver in its toolchain's directory.
pub fn driver_name() -> (name: &'static str)
    ensures
        name@ == "dylint-driver"@,
{
    "dylint-driver"
}

/// The argument with which a driver is asked for its version.
pub fn version_flag() -> (flag: &'static str)
    ensures
        flag@ == "-V"@,
{
    "-V"
}

} // verus!
