use driver_cache::cache::{
    driver_name, drivers_directory, get_start, get_step, override_variable, readme_name,
    readme_text, resolve_start, resolve_step, version_flag, CacheRoot, GetAction, GetEvent,
    GetState, ResolveAction, ResolveEvent, ResolveState,
};
use driver_cache::error::Failure;

fn ran(stdout: &[u8]) -> GetEvent {
    GetEvent::Exited { success: true, stdout: stdout.to_vec() }
}

fn resolve_run(events: &[ResolveEvent]) -> Vec<ResolveAction> {
    let (mut state, first) = resolve_start();
    let mut actions = vec![first];
    for e in events {
        let (next, action) = resolve_step(state, *e);
        state = next;
        actions.push(action);
    }
    actions
}

fn get_run(events: Vec<GetEvent>, tool_version: &str) -> Vec<GetAction> {
    let (mut state, first) = get_start();
    let mut actions = vec![first];
    for e in &events {
        let (next, action) = get_step(state, e, tool_version);
        state = next;
        actions.push(action);
    }
    actions
}

#[test]
fn override_that_is_a_directory_is_the_root() {
    assert_eq!(
        resolve_run(&[ResolveEvent::OverrideSet, ResolveEvent::IsDirectory]),
        vec![
            ResolveAction::ReadOverride,
            ResolveAction::ProbeOverride,
            ResolveAction::Return(CacheRoot::Override)
        ]
    );
}

#[test]
fn override_that_is_no_directory_fails_without_creating() {
    let actions = resolve_run(&[ResolveEvent::OverrideSet, ResolveEvent::NotDirectory]);
    assert_eq!(
        actions,
        vec![
            ResolveAction::ReadOverride,
            ResolveAction::ProbeOverride,
            ResolveAction::Fail(Failure::OverrideNotDirectory)
        ]
    );
    assert!(!actions.contains(&ResolveAction::CreateDefault));
    assert!(!actions.contains(&ResolveAction::WriteReadme));
}

#[test]
fn default_root_is_created_with_its_readme() {
    assert_eq!(
        resolve_run(&[
            ResolveEvent::OverrideUnset,
            ResolveEvent::HomeFound,
            ResolveEvent::NotDirectory,
            ResolveEvent::Succeeded,
            ResolveEvent::Succeeded
        ]),
        vec![
            ResolveAction::ReadOverride,
            ResolveAction::FindHome,
            ResolveAction::ProbeDefault,
            ResolveAction::CreateDefault,
            ResolveAction::WriteReadme,
            ResolveAction::Return(CacheRoot::Default)
        ]
    );
}

#[test]
fn existing_default_root_is_left_alone() {
    assert_eq!(
        resolve_run(&[
            ResolveEvent::OverrideUnset,
            ResolveEvent::HomeFound,
            ResolveEvent::IsDirectory
        ]),
        vec![
            ResolveAction::ReadOverride,
            ResolveAction::FindHome,
            ResolveAction::ProbeDefault,
            ResolveAction::Return(CacheRoot::Default)
        ]
    );
}

#[test]
fn resolution_failures() {
    assert_eq!(
        resolve_run(&[ResolveEvent::OverrideUnset, ResolveEvent::HomeMissing]).last(),
        Some(&ResolveAction::Fail(Failure::HomeNotFound))
    );
    assert_eq!(
        resolve_run(&[
            ResolveEvent::OverrideUnset,
            ResolveEvent::HomeFound,
            ResolveEvent::NotDirectory,
            ResolveEvent::Failed
        ])
        .last(),
        Some(&ResolveAction::Fail(Failure::CreateDirectory))
    );
    assert_eq!(
        resolve_run(&[
            ResolveEvent::OverrideUnset,
            ResolveEvent::HomeFound,
            ResolveEvent::NotDirectory,
            ResolveEvent::Succeeded,
            ResolveEvent::Failed
        ])
        .last(),
        Some(&ResolveAction::Fail(Failure::WriteFile))
    );
}

#[test]
fn resolution_rejects_outcomes_out_of_turn() {
    assert_eq!(
        resolve_step(ResolveState::ReadingOverride, ResolveEvent::IsDirectory),
        (ResolveState::Finished, ResolveAction::Fail(Failure::UnexpectedEvent))
    );
    assert_eq!(
        resolve_step(ResolveState::Finished, ResolveEvent::Succeeded),
        (ResolveState::Finished, ResolveAction::Fail(Failure::UnexpectedEvent))
    );
}

#[test]
fn missing_driver_is_built_once() {
    let actions = get_run(
        vec![GetEvent::Absent, GetEvent::Succeeded, GetEvent::Absent, GetEvent::Succeeded],
        "0.1.3",
    );
    assert_eq!(
        actions,
        vec![
            GetAction::ProbeDirectory,
            GetAction::CreateDirectory,
            GetAction::ProbeDriver,
            GetAction::Build,
            GetAction::Return
        ]
    );
}

#[test]
fn second_lookup_is_a_hit() {
    let actions = get_run(
        vec![
            GetEvent::Present,
            GetEvent::Present,
            ran(b"dylint_driver 0.1.3\n"),
        ],
        "0.1.3",
    );
    assert_eq!(
        actions,
        vec![
            GetAction::ProbeDirectory,
            GetAction::ProbeDriver,
            GetAction::QueryVersion,
            GetAction::Return
        ]
    );
}

#[test]
fn stale_driver_is_rebuilt() {
    let actions = get_run(
        vec![
            GetEvent::Present,
            GetEvent::Present,
            ran(b"dylint_driver 0.1.2\n"),
            GetEvent::Succeeded,
        ],
        "0.1.3",
    );
    assert_eq!(
        actions,
        vec![
            GetAction::ProbeDirectory,
            GetAction::ProbeDriver,
            GetAction::QueryVersion,
            GetAction::Build,
            GetAction::Return
        ]
    );
    assert_eq!(actions.iter().filter(|a| **a == GetAction::Build).count(), 1);
}

#[test]
fn unreadable_version_is_rebuilt() {
    let (state, action) = get_step(GetState::QueryingVersion, &ran(b"something else\n"), "0.1.3");
    assert_eq!((state, action), (GetState::Warning, GetAction::Warn));
    let actions = get_run(
        vec![
            GetEvent::Present,
            GetEvent::Present,
            ran(b"dylint_driver banana\n"),
            GetEvent::Succeeded,
            GetEvent::Succeeded,
        ],
        "0.1.0",
    );
    assert_eq!(
        actions,
        vec![
            GetAction::ProbeDirectory,
            GetAction::ProbeDriver,
            GetAction::QueryVersion,
            GetAction::Warn,
            GetAction::Build,
            GetAction::Return
        ]
    );
    assert_eq!(
        get_step(GetState::Warning, &GetEvent::Failed, "0.1.0"),
        (GetState::Finished, GetAction::Fail(Failure::UnexpectedEvent))
    );
}

#[test]
fn driver_that_differs_in_build_metadata_is_a_hit() {
    assert_eq!(
        get_step(GetState::QueryingVersion, &ran(b"dylint_driver 1.0.0+1\n"), "1.0.0+2"),
        (GetState::Finished, GetAction::Return)
    );
}

#[test]
fn failed_version_query_fails_the_lookup() {
    for stdout in [&b"dylint_driver 0.1.3\n"[..], &b"dylint_driver 0.0.1\n"[..], &b"banana"[..], &b""[..]] {
        let event = GetEvent::Exited { success: false, stdout: stdout.to_vec() };
        assert_eq!(
            get_step(GetState::QueryingVersion, &event, "0.1.3"),
            (GetState::Finished, GetAction::Fail(Failure::VersionQuery))
        );
    }
}

#[test]
fn lookup_failures() {
    assert_eq!(
        get_step(GetState::CreatingDirectory, &GetEvent::Failed, "0.1.3"),
        (GetState::Finished, GetAction::Fail(Failure::CreateDirectory))
    );
    assert_eq!(
        get_step(GetState::QueryingVersion, &GetEvent::Failed, "0.1.3"),
        (GetState::Finished, GetAction::Fail(Failure::VersionQuery))
    );
    assert_eq!(
        get_step(GetState::QueryingVersion, &ran(b"nospace"), "0.1.3"),
        (GetState::Finished, GetAction::Fail(Failure::VersionMissing))
    );
    assert_eq!(
        get_step(GetState::QueryingVersion, &ran(&[0x20, 0xff]), "0.1.3"),
        (GetState::Finished, GetAction::Fail(Failure::OutputNotUtf8))
    );
    assert_eq!(
        get_step(GetState::QueryingVersion, &ran(b"d 0.1.3"), "x"),
        (GetState::Finished, GetAction::Fail(Failure::OwnVersion))
    );
    assert_eq!(
        get_step(
            GetState::Building,
            &GetEvent::BuildFailed(Failure::ToolchainNotInstalled),
            "0.1.3"
        ),
        (GetState::Finished, GetAction::Fail(Failure::ToolchainNotInstalled))
    );
    assert_eq!(
        get_step(GetState::Building, &GetEvent::Present, "0.1.3"),
        (GetState::Finished, GetAction::Fail(Failure::UnexpectedEvent))
    );
    assert_eq!(
        get_step(GetState::Finished, &GetEvent::Succeeded, "0.1.3"),
        (GetState::Finished, GetAction::Fail(Failure::UnexpectedEvent))
    );
}

#[test]
fn cache_layout_names() {
    assert_eq!(override_variable(), "DYLINT_DRIVER_PATH");
    assert_eq!(drivers_directory(), ".dylint_drivers");
    assert_eq!(readme_name(), "README.txt");
    assert_eq!(driver_name(), "dylint-driver");
    assert_eq!(version_flag(), "-V");
    assert_eq!(
        readme_text(),
        "\nThis directory contains Rust compiler drivers used by Dylint\n(https://github.com/trailofbits/dylint).\n\nDeleting this directory will cause Dylint to rebuild the drivers\nthe next time it needs them, but will have no ill effects.\n"
    );
}
