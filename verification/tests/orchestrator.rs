use driver_cache::error::{
    copy_message, failure_message, operation_message, Failure, FailureKind,
};
use driver_cache::git::{head_target, HeadTarget};
use driver_cache::orchestrator::{
    binary_name, build_environment, build_start, build_step, following, output_directory,
    phase_failure, rustflags, rustflags_variable, workspace_path, BuildAction, BuildEvent,
    BuildPhase, BuildState,
};

const PHASES: [BuildPhase; 9] = [
    BuildPhase::CreateWorkspace,
    BuildPhase::WriteManifest,
    BuildPhase::WriteToolchainPin,
    BuildPhase::CreateSourceDirectory,
    BuildPhase::WriteEntryPoint,
    BuildPhase::ReadMetadata,
    BuildPhase::ResolveToolchain,
    BuildPhase::Compile,
    BuildPhase::CopyArtifact,
];

fn build_run(events: &[BuildEvent]) -> Vec<BuildAction> {
    let (mut state, first) = build_start();
    let mut actions = vec![first];
    for e in events {
        let (next, action) = build_step(state, *e);
        state = next;
        actions.push(action);
    }
    actions
}

#[test]
fn successful_build_performs_every_operation_in_order() {
    let actions = build_run(&[BuildEvent::Succeeded; 10]);
    let mut expected: Vec<BuildAction> = PHASES.iter().map(|p| BuildAction::Perform(*p)).collect();
    expected.push(BuildAction::RemoveWorkspace);
    expected.push(BuildAction::Return);
    assert_eq!(actions, expected);
}

#[test]
fn failed_build_removes_the_workspace() {
    for n in 1..9 {
        let mut events = vec![BuildEvent::Succeeded; n];
        events.push(BuildEvent::Failed);
        events.push(BuildEvent::Succeeded);
        let actions = build_run(&events);
        assert_eq!(actions.len(), n + 3);
        assert_eq!(actions[n + 1], BuildAction::RemoveWorkspace);
        assert_eq!(actions[n + 2], BuildAction::Fail(phase_failure(PHASES[n])));
        if n < 8 {
            assert!(!actions.contains(&BuildAction::Perform(BuildPhase::CopyArtifact)));
        }
    }
}

#[test]
fn failure_to_create_the_workspace_ends_the_build() {
    assert_eq!(
        build_run(&[BuildEvent::Failed]),
        vec![
            BuildAction::Perform(BuildPhase::CreateWorkspace),
            BuildAction::Fail(Failure::CreateWorkspace)
        ]
    );
}

#[test]
fn missing_toolchain_copies_nothing() {
    let mut events = vec![BuildEvent::Succeeded; 6];
    events.push(BuildEvent::Failed);
    events.push(BuildEvent::Failed);
    let actions = build_run(&events);
    assert_eq!(actions[7], BuildAction::RemoveWorkspace);
    assert_eq!(actions[8], BuildAction::Fail(Failure::ToolchainNotInstalled));
    assert!(!actions.contains(&BuildAction::Perform(BuildPhase::Compile)));
    assert!(!actions.contains(&BuildAction::Perform(BuildPhase::CopyArtifact)));
}

#[test]
fn finished_build_takes_no_more_outcomes() {
    assert_eq!(
        build_step(BuildState::Finished, BuildEvent::Succeeded),
        (BuildState::Finished, BuildAction::Fail(Failure::UnexpectedEvent))
    );
}

#[test]
fn operations_follow_each_other() {
    for i in 0..8 {
        assert_eq!(following(PHASES[i]), Some(PHASES[i + 1]));
    }
    assert_eq!(following(BuildPhase::CopyArtifact), None);
}

#[test]
fn each_operation_has_its_failure() {
    assert_eq!(phase_failure(BuildPhase::CreateWorkspace), Failure::CreateWorkspace);
    assert_eq!(phase_failure(BuildPhase::WriteManifest), Failure::WriteFile);
    assert_eq!(phase_failure(BuildPhase::WriteToolchainPin), Failure::WriteFile);
    assert_eq!(phase_failure(BuildPhase::CreateSourceDirectory), Failure::CreateDirectory);
    assert_eq!(phase_failure(BuildPhase::WriteEntryPoint), Failure::WriteFile);
    assert_eq!(phase_failure(BuildPhase::ReadMetadata), Failure::Metadata);
    assert_eq!(phase_failure(BuildPhase::ResolveToolchain), Failure::ToolchainNotInstalled);
    assert_eq!(phase_failure(BuildPhase::Compile), Failure::BuildFailed);
    assert_eq!(phase_failure(BuildPhase::CopyArtifact), Failure::CopyArtifact);
}

#[test]
fn linker_flags_hold_the_absolute_path() {
    assert_eq!(
        rustflags("/home/me/.rustup/toolchains/nightly"),
        "-C link-args=-Wl,-rpath,/home/me/.rustup/toolchains/nightly/lib"
    );
    assert_eq!(rustflags(""), "-C link-args=-Wl,-rpath,/lib");
}

#[test]
fn binary_is_named_after_the_toolchain() {
    assert_eq!(binary_name("nightly-2021-04-08", ""), "dylint_driver-nightly-2021-04-08");
    assert_eq!(binary_name("stable", ".exe"), "dylint_driver-stable.exe");
}

fn var(name: &str, value: &str) -> (String, String) {
    (name.to_string(), value.to_string())
}

#[test]
fn environment_is_sanitized_and_gets_the_flags() {
    let ambient = vec![
        var("PATH", "/usr/bin"),
        var("RUSTC", "/opt/rustc"),
        var("HOME", "/home/me"),
        var("RUSTFLAGS", "-C opt-level=3"),
        var("RUSTUP_TOOLCHAIN", "stable"),
        var("rustc", "lower case stays"),
    ];
    let env = build_environment(&ambient, "-C link-args=-Wl,-rpath,/t/lib");
    assert_eq!(
        env,
        vec![
            var("PATH", "/usr/bin"),
            var("HOME", "/home/me"),
            var("rustc", "lower case stays"),
            var("RUSTFLAGS", "-C link-args=-Wl,-rpath,/t/lib"),
        ]
    );
}

#[test]
fn empty_environment_gets_the_flags() {
    assert_eq!(build_environment(&Vec::new(), "x"), vec![var("RUSTFLAGS", "x")]);
}

#[test]
fn workspace_layout() {
    assert_eq!(workspace_path(BuildPhase::WriteManifest), vec!["Cargo.toml"]);
    assert_eq!(workspace_path(BuildPhase::WriteToolchainPin), vec!["rust-toolchain"]);
    assert_eq!(workspace_path(BuildPhase::CreateSourceDirectory), vec!["src"]);
    assert_eq!(workspace_path(BuildPhase::WriteEntryPoint), vec!["src", "main.rs"]);
    assert!(workspace_path(BuildPhase::Compile).is_empty());
    assert_eq!(output_directory(), "debug");
    assert_eq!(rustflags_variable(), "RUSTFLAGS");
}

#[test]
fn failures_fall_into_kinds() {
    assert_eq!(Failure::OverrideNotDirectory.kind(), FailureKind::Configuration);
    assert_eq!(Failure::HomeNotFound.kind(), FailureKind::Configuration);
    assert_eq!(Failure::CreateDirectory.kind(), FailureKind::Io);
    assert_eq!(Failure::WriteFile.kind(), FailureKind::Io);
    assert_eq!(Failure::CreateWorkspace.kind(), FailureKind::Io);
    assert_eq!(Failure::CopyArtifact.kind(), FailureKind::Io);
    assert_eq!(Failure::Metadata.kind(), FailureKind::Subprocess);
    assert_eq!(Failure::BuildFailed.kind(), FailureKind::Subprocess);
    assert_eq!(Failure::VersionQuery.kind(), FailureKind::Subprocess);
    assert_eq!(Failure::OutputNotUtf8.kind(), FailureKind::Subprocess);
    assert_eq!(Failure::VersionMissing.kind(), FailureKind::Subprocess);
    assert_eq!(Failure::OwnVersion.kind(), FailureKind::VersionParse);
    assert_eq!(Failure::ToolchainNotInstalled.kind(), FailureKind::ToolchainResolution);
    assert_eq!(Failure::UnexpectedEvent.kind(), FailureKind::Protocol);
}

#[test]
fn messages_name_the_paths() {
    assert_eq!(
        operation_message("create_dir_all", "/home/me/.dylint_drivers"),
        "`create_dir_all` failed for `/home/me/.dylint_drivers`"
    );
    assert_eq!(operation_message("write", "/t/Cargo.toml"), "`write` failed for `/t/Cargo.toml`");
    assert_eq!(copy_message("/t/a", "/c/b"), "Could not copy `/t/a` to `/c/b`");
}

#[test]
fn head_follows_a_named_reference() {
    assert!(matches!(
        head_target(Some(Some("refs/heads/main"))),
        HeadTarget::Reference(name) if name == "refs/heads/main"
    ));
    assert!(matches!(head_target(Some(None)), HeadTarget::Detached));
    assert!(matches!(head_target(None), HeadTarget::Detached));
}

#[test]
fn failure_messages() {
    assert_eq!(failure_message(Failure::HomeNotFound, ""), "Could not find HOME directory");
    assert_eq!(
        failure_message(Failure::HomeNotFound, "nightly"),
        "Could not find HOME directory"
    );
    assert_eq!(
        failure_message(Failure::ToolchainNotInstalled, "nightly-2021-04-08"),
        "Toolchain `nightly-2021-04-08` is not installed"
    );
    assert_eq!(
        failure_message(Failure::BuildFailed, "stable"),
        "Could not build driver for toolchain `stable`"
    );
    assert_eq!(
        failure_message(Failure::OverrideNotDirectory, ""),
        "`DYLINT_DRIVER_PATH` does not name a directory"
    );
    assert_eq!(
        failure_message(Failure::VersionMissing, ""),
        "Could not determine driver version"
    );
    assert_eq!(failure_message(Failure::OwnVersion, ""), "Could not parse own version");
    assert_eq!(failure_message(Failure::CreateDirectory, ""), "Could not create directory");
    assert_eq!(failure_message(Failure::WriteFile, ""), "Could not write file");
    assert_eq!(failure_message(Failure::CreateWorkspace, ""), "`tempdir` failed");
    assert_eq!(failure_message(Failure::CopyArtifact, ""), "Could not copy driver");
    assert_eq!(failure_message(Failure::Metadata, ""), "Could not read build metadata");
    assert_eq!(
        failure_message(Failure::VersionQuery, ""),
        "Could not run driver to determine its version"
    );
    assert_eq!(failure_message(Failure::OutputNotUtf8, ""), "Driver version is not valid UTF-8");
    assert_eq!(
        failure_message(Failure::UnexpectedEvent, ""),
        "Unexpected outcome of an operation"
    );
}
