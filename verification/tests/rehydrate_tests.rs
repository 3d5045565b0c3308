use dehydrate::awake::{AwakeAction, AwakeEvent, AwakeMachine, InstallOutcome, RehydrateError, VenvOutcome};
use dehydrate::ecosystem::analyze_project;
use dehydrate::hibernate::{build_snapshot, plan_hibernation, DehydrateSnapshot, TargetState};
use dehydrate::rehydrate::{get_safe_bin, plan_rehydration, trust_prompt_lines, venv_name, InstallStep, Program, MAX_SNAPSHOT_BYTES};

fn names(items: &[&str]) -> Vec<String> {
    items.iter().map(|s| s.to_string()).collect()
}

fn snapshot(pms: &[&str], deleted: &[&str]) -> DehydrateSnapshot {
    DehydrateSnapshot {
        hibernated_at: "2024-01-01T00:00:00Z".to_string(),
        ecosystems: names(&["Node"]),
        package_managers: names(pms),
        install_commands: names(&["bash -c 'rm -rf /'"]),
        deleted_paths: names(deleted),
        space_saved_bytes: 1000,
    }
}

fn step(m: AwakeMachine, e: AwakeEvent) -> (AwakeMachine, AwakeAction) {
    assert!(m.accepts(&e), "event {:?} not expected", e);
    m.step(e)
}

#[test]
fn whitelist_rebuilds_commands_from_managers() {
    let steps = plan_rehydration(&names(&["npm", "cargo", "pipenv"]), &Vec::new()).unwrap();
    let lines = trust_prompt_lines(&steps, false);
    assert_eq!(lines, vec![names(&["npm", "ci"]), names(&["cargo", "fetch"]), names(&["pipenv", "install"])]);
    let steps = plan_rehydration(&names(&["yarn", "pnpm", "bun", "poetry"]), &Vec::new()).unwrap();
    let lines = trust_prompt_lines(&steps, false);
    assert_eq!(lines, vec![names(&["yarn", "install"]), names(&["pnpm", "install"]), names(&["bun", "install"]), names(&["poetry", "install"])]);
}

#[test]
fn unknown_manager_is_rejected() {
    let refusal = plan_rehydration(&names(&["npm", "bash", "sh"]), &Vec::new()).unwrap_err();
    assert_eq!(refusal.package_manager, "bash");
    assert_eq!(trust_prompt_lines(&refusal.accepted, false), vec![names(&["npm", "ci"])]);
    let refusal = plan_rehydration(&names(&["NPM"]), &Vec::new()).unwrap_err();
    assert_eq!(refusal.package_manager, "NPM");
    assert!(refusal.accepted.is_empty());
    assert!(plan_rehydration(&Vec::new(), &Vec::new()).unwrap().is_empty());
}

#[test]
fn pip_rebuilds_the_recorded_virtual_environment() {
    assert_eq!(venv_name(&names(&["__pycache__", ".venv", "venv"])), ".venv");
    assert_eq!(venv_name(&names(&["__pycache__"])), "venv");
    let steps = plan_rehydration(&names(&["pip"]), &names(&["venv_old", ".venv"])).unwrap();
    match &steps[0] {
        InstallStep::PipVenv { venv } => assert_eq!(venv, ".venv"),
        other => panic!("unexpected {:?}", other),
    }
    assert_eq!(trust_prompt_lines(&steps, false), vec![names(&["python3", "-m", "venv", ".venv"]), names(&[".venv/bin/pip", "install", "-r", "requirements.txt"])]);
    assert_eq!(trust_prompt_lines(&steps, true), vec![names(&["python", "-m", "venv", ".venv"]), names(&[".venv\\Scripts\\pip", "install", "-r", "requirements.txt"])]);
}

#[test]
fn safe_bins() {
    assert_eq!(get_safe_bin("npm", true), "npm.cmd");
    assert_eq!(get_safe_bin("npx", true), "npx.cmd");
    assert_eq!(get_safe_bin("yarn", true), "yarn.cmd");
    assert_eq!(get_safe_bin("pnpm", true), "pnpm.cmd");
    assert_eq!(get_safe_bin("cargo", true), "cargo");
    assert_eq!(get_safe_bin("npm", false), "npm");
}

#[test]
fn awake_happy_path_npm() {
    let (m, a) = AwakeMachine::start(false);
    assert!(matches!(a, AwakeAction::LocateSnapshot));
    let (m, a) = step(m, AwakeEvent::SnapshotFound(true));
    assert!(matches!(a, AwakeAction::MeasureSnapshot));
    let (m, a) = step(m, AwakeEvent::SnapshotSize(200));
    assert!(matches!(a, AwakeAction::ReadSnapshot));
    let (m, a) = step(m, AwakeEvent::SnapshotRead(snapshot(&["npm"], &["node_modules"])));
    match a {
        AwakeAction::ShowPlan(lines) => assert_eq!(lines, vec![names(&["npm", "ci"])]),
        other => panic!("unexpected {:?}", other),
    }
    let (m, a) = step(m, AwakeEvent::Proceed);
    assert!(matches!(a, AwakeAction::CheckTerminal));
    let (m, a) = step(m, AwakeEvent::Interactive(true));
    assert!(matches!(a, AwakeAction::AskConsent));
    let (m, a) = step(m, AwakeEvent::Answer("\n".to_string()));
    match a {
        AwakeAction::Announce(ecosystems) => assert_eq!(ecosystems, names(&["Node"])),
        other => panic!("unexpected {:?}", other),
    }
    let (m, a) = step(m, AwakeEvent::Proceed);
    match a {
        AwakeAction::CheckTool { run: Program::Named(r), shown: Program::Named(s) } => {
            assert_eq!(r, "npm");
            assert_eq!(s, "npm");
        }
        other => panic!("unexpected {:?}", other),
    }
    let (m, a) = step(m, AwakeEvent::ToolAvailable(true));
    match a {
        AwakeAction::Install { run: Program::Named(r), args, .. } => {
            assert_eq!(r, "npm");
            assert_eq!(args, names(&["ci"]));
        }
        other => panic!("unexpected {:?}", other),
    }
    let (_m, a) = step(m, AwakeEvent::Installed(InstallOutcome::Succeeded));
    assert!(matches!(a, AwakeAction::RemoveSnapshot));
}

#[test]
fn awake_refuses_without_consent() {
    let (m, _) = AwakeMachine::start(false);
    let (m, _) = step(m, AwakeEvent::SnapshotFound(true));
    let (m, _) = step(m, AwakeEvent::SnapshotSize(10));
    let (m, _) = step(m, AwakeEvent::SnapshotRead(snapshot(&["npm"], &[])));
    let (m, _) = step(m, AwakeEvent::Proceed);
    let (m, _) = step(m, AwakeEvent::Interactive(true));
    let (_, a) = step(m, AwakeEvent::Answer("N\n".to_string()));
    assert!(matches!(a, AwakeAction::Fail(RehydrateError::Aborted)));
}

#[test]
fn awake_refuses_non_interactive_input() {
    let (m, _) = AwakeMachine::start(false);
    let (m, _) = step(m, AwakeEvent::SnapshotFound(true));
    let (m, _) = step(m, AwakeEvent::SnapshotSize(10));
    let (m, _) = step(m, AwakeEvent::SnapshotRead(snapshot(&["npm"], &[])));
    let (m, _) = step(m, AwakeEvent::Proceed);
    let (_, a) = step(m, AwakeEvent::Interactive(false));
    assert!(matches!(a, AwakeAction::Fail(RehydrateError::NonInteractive)));
}

#[test]
fn awake_refuses_missing_and_oversized_snapshots() {
    let (m, _) = AwakeMachine::start(false);
    let (_, a) = step(m, AwakeEvent::SnapshotFound(false));
    assert!(matches!(a, AwakeAction::Fail(RehydrateError::NotHibernated)));
    let (m, _) = AwakeMachine::start(false);
    let (m, _) = step(m, AwakeEvent::SnapshotFound(true));
    let (_, a) = step(m, AwakeEvent::SnapshotSize(1024 * 1024 + 100));
    assert!(matches!(a, AwakeAction::Fail(RehydrateError::SnapshotTooLarge)));
    let (m, _) = AwakeMachine::start(false);
    let (m, _) = step(m, AwakeEvent::SnapshotFound(true));
    let (_, a) = step(m, AwakeEvent::SnapshotSize(MAX_SNAPSHOT_BYTES));
    assert!(matches!(a, AwakeAction::ReadSnapshot));
}

#[test]
fn awake_refuses_malicious_manager_before_asking() {
    let (m, _) = AwakeMachine::start(false);
    let (m, _) = step(m, AwakeEvent::SnapshotFound(true));
    let (m, _) = step(m, AwakeEvent::SnapshotSize(10));
    let (m, a) = step(m, AwakeEvent::SnapshotRead(snapshot(&["cargo", "bash", "npm"], &["node_modules"])));
    match a {
        AwakeAction::ShowPlan(lines) => assert_eq!(lines, vec![names(&["cargo", "fetch"])]),
        other => panic!("unexpected {:?}", other),
    }
    let (_, a) = step(m, AwakeEvent::Proceed);
    match a {
        AwakeAction::Fail(RehydrateError::UnrecognizedPackageManager(pm)) => assert_eq!(pm, "bash"),
        other => panic!("unexpected {:?}", other),
    }
}

#[test]
fn awake_pip_on_windows_and_failures() {
    let (m, _) = AwakeMachine::start(true);
    let (m, _) = step(m, AwakeEvent::SnapshotFound(true));
    let (m, _) = step(m, AwakeEvent::SnapshotSize(10));
    let (m, _) = step(m, AwakeEvent::SnapshotRead(snapshot(&["pip", "npm"], &["venv"])));
    let (m, _) = step(m, AwakeEvent::Proceed);
    let (m, _) = step(m, AwakeEvent::Interactive(true));
    let (m, _) = step(m, AwakeEvent::Answer(" y ".to_string()));
    let (m, a) = step(m, AwakeEvent::Proceed);
    match a {
        AwakeAction::RebuildVenv(v) => assert_eq!(v, "venv"),
        other => panic!("unexpected {:?}", other),
    }
    let (m, a) = step(m, AwakeEvent::Proceed);
    match a {
        AwakeAction::CreateVenv { python, venv } => {
            assert_eq!(python, "python");
            assert_eq!(venv, "venv");
        }
        other => panic!("unexpected {:?}", other),
    }
    let (m, a) = step(m, AwakeEvent::VenvCreated(VenvOutcome::Created));
    match a {
        AwakeAction::CheckTool { run: Program::VenvPip(v), .. } => assert_eq!(v, "venv"),
        other => panic!("unexpected {:?}", other),
    }
    let (m, a) = step(m, AwakeEvent::ToolAvailable(true));
    match a {
        AwakeAction::Install { args, .. } => assert_eq!(args, names(&["install", "-r", "requirements.txt"])),
        other => panic!("unexpected {:?}", other),
    }
    let (m, a) = step(m, AwakeEvent::Installed(InstallOutcome::Succeeded));
    match a {
        AwakeAction::CheckTool { run: Program::Named(r), shown: Program::Named(s) } => {
            assert_eq!(r, "npm.cmd");
            assert_eq!(s, "npm");
        }
        other => panic!("unexpected {:?}", other),
    }
    let (_, a) = step(m, AwakeEvent::ToolAvailable(false));
    match a {
        AwakeAction::Fail(RehydrateError::MissingDependency(Program::Named(s))) => assert_eq!(s, "npm"),
        other => panic!("unexpected {:?}", other),
    }
}

#[test]
fn awake_pip_probe_and_venv_errors() {
    let start = || {
        let (m, _) = AwakeMachine::start(false);
        let (m, _) = step(m, AwakeEvent::SnapshotFound(true));
        let (m, _) = step(m, AwakeEvent::SnapshotSize(10));
        let (m, _) = step(m, AwakeEvent::SnapshotRead(snapshot(&["pip"], &[])));
        let (m, _) = step(m, AwakeEvent::Proceed);
        let (m, _) = step(m, AwakeEvent::Interactive(true));
        let (m, _) = step(m, AwakeEvent::Answer("Y".to_string()));
        let (m, _) = step(m, AwakeEvent::Proceed);
        let (m, a) = step(m, AwakeEvent::Proceed);
        assert!(matches!(a, AwakeAction::ProbePython3));
        m
    };
    let (m, a) = step(start(), AwakeEvent::Python3Available(false));
    match a {
        AwakeAction::CreateVenv { python, .. } => assert_eq!(python, "python"),
        other => panic!("unexpected {:?}", other),
    }
    let (_, a) = step(m, AwakeEvent::VenvCreated(VenvOutcome::PythonNotFound));
    assert!(matches!(a, AwakeAction::Fail(RehydrateError::MissingPython)));
    let (m, _) = step(start(), AwakeEvent::Python3Available(true));
    let (_, a) = step(m, AwakeEvent::VenvCreated(VenvOutcome::SpawnError("denied".to_string())));
    match a {
        AwakeAction::Fail(RehydrateError::VenvSpawnFailed { python, detail }) => {
            assert_eq!(python, "python3");
            assert_eq!(detail, "denied");
        }
        other => panic!("unexpected {:?}", other),
    }
    let (m, _) = step(start(), AwakeEvent::Python3Available(true));
    let (_, a) = step(m, AwakeEvent::VenvCreated(VenvOutcome::Failed));
    assert!(matches!(a, AwakeAction::Fail(RehydrateError::VenvFailed)));
}

#[test]
fn awake_install_failure_stops() {
    let (m, _) = AwakeMachine::start(false);
    let (m, _) = step(m, AwakeEvent::SnapshotFound(true));
    let (m, _) = step(m, AwakeEvent::SnapshotSize(10));
    let (m, _) = step(m, AwakeEvent::SnapshotRead(snapshot(&["cargo", "npm"], &[])));
    let (m, _) = step(m, AwakeEvent::Proceed);
    let (m, _) = step(m, AwakeEvent::Interactive(true));
    let (m, _) = step(m, AwakeEvent::Answer("y".to_string()));
    let (m, _) = step(m, AwakeEvent::Proceed);
    let (m, _) = step(m, AwakeEvent::ToolAvailable(true));
    let (_, a) = step(m, AwakeEvent::Installed(InstallOutcome::Failed));
    match a {
        AwakeAction::Fail(RehydrateError::InstallFailed(Program::Named(s))) => assert_eq!(s, "cargo"),
        other => panic!("unexpected {:?}", other),
    }
}

#[test]
fn awake_with_no_managers_only_removes_snapshot() {
    let (m, _) = AwakeMachine::start(false);
    let (m, _) = step(m, AwakeEvent::SnapshotFound(true));
    let (m, _) = step(m, AwakeEvent::SnapshotSize(10));
    let (m, a) = step(m, AwakeEvent::SnapshotRead(snapshot(&[], &[])));
    match a {
        AwakeAction::ShowPlan(lines) => assert!(lines.is_empty()),
        other => panic!("unexpected {:?}", other),
    }
    let (m, _) = step(m, AwakeEvent::Proceed);
    let (m, _) = step(m, AwakeEvent::Interactive(true));
    let (m, _) = step(m, AwakeEvent::Answer("y".to_string()));
    let (_, a) = step(m, AwakeEvent::Proceed);
    assert!(matches!(a, AwakeAction::RemoveSnapshot));
}

#[test]
fn round_trip_recorded_commands_are_rebuilt() {
    let m = analyze_project(&names(&[
        "package.json", "bun.lockb", "Cargo.toml", "Cargo.lock", "pyproject.toml", "Pipfile.lock", "requirements.txt",
    ]))
    .unwrap();
    let n = m.targets_to_delete.len();
    let plan = plan_hibernation(&m.targets_to_delete, &vec![0; n], &vec![TargetState::Absent; n]);
    let snap = build_snapshot("t".to_string(), &m, &plan);
    let steps = plan_rehydration(&snap.package_managers, &snap.deleted_paths).unwrap();
    let lines: Vec<String> = trust_prompt_lines(&steps, false).iter().map(|l| l.join(" ")).collect();
    assert_eq!(lines, snap.install_commands);
    let m = analyze_project(&names(&["requirements.txt", ".venv"])).unwrap();
    let plan = plan_hibernation(&m.targets_to_delete, &vec![7], &vec![TargetState::Present]);
    let snap = build_snapshot("t".to_string(), &m, &plan);
    let steps = plan_rehydration(&snap.package_managers, &snap.deleted_paths).unwrap();
    match &steps[0] {
        InstallStep::PipVenv { venv } => assert_eq!(venv, ".venv"),
        other => panic!("unexpected {:?}", other),
    }
}
