use dehydrate::ecosystem::analyze_project;
use dehydrate::hibernate::TargetState;
use dehydrate::text::has_words;
use dehydrate::hibernation::{lockfile_invocation, measured, HibernationAction, HibernationError, HibernationEvent, HibernationMachine, HibernationOutcome};

fn names(items: &[&str]) -> Vec<String> {
    items.iter().map(|s| s.to_string()).collect()
}

fn step(m: HibernationMachine, e: HibernationEvent) -> (HibernationMachine, HibernationAction) {
    assert!(m.accepts(&e));
    m.step(e)
}

fn sizes(v: Vec<u64>) -> HibernationEvent {
    let states = vec![TargetState::Present; v.len()];
    measure(v, states)
}

fn measure(v: Vec<u64>, states: Vec<TargetState>) -> HibernationEvent {
    HibernationEvent::Measured { sizes: v, states, hibernated_at: "2024-05-01T10:00:00+00:00".to_string() }
}

#[test]
fn hibernates_node_project() {
    let (m, a) = HibernationMachine::start(false);
    assert!(matches!(a, HibernationAction::Analyze));
    let analysis = analyze_project(&names(&["package.json", "package-lock.json", "node_modules", "dist"]));
    let (m, a) = step(m, HibernationEvent::Analyzed(analysis));
    match a {
        HibernationAction::Measure(t) => assert_eq!(t, names(&["node_modules", "dist"])),
        _ => panic!("expected a measurement"),
    }
    let (m, a) = step(m, sizes(vec![9, 0]));
    match a {
        HibernationAction::WriteSnapshot(s) => {
            assert_eq!(s.package_managers, names(&["npm"]));
            assert_eq!(s.install_commands, names(&["npm ci"]));
            assert_eq!(s.deleted_paths, names(&["node_modules", "dist"]));
            assert_eq!(s.ecosystems, names(&["Node"]));
            assert_eq!(s.space_saved_bytes, 9);
            assert_eq!(s.hibernated_at, "2024-05-01T10:00:00+00:00");
        }
        _ => panic!("expected the snapshot"),
    }
    let (m, a) = step(m, HibernationEvent::Proceed);
    match a {
        HibernationAction::InspectTarget(t) => assert_eq!(t, "node_modules"),
        _ => panic!("expected an inspection"),
    }
    let (m, a) = step(m, HibernationEvent::Inspected { exists: true, is_symlink: false });
    match a {
        HibernationAction::RemoveTarget(t) => assert_eq!(t, "node_modules"),
        _ => panic!("expected a removal"),
    }
    let (m, a) = step(m, HibernationEvent::Proceed);
    match a {
        HibernationAction::InspectTarget(t) => assert_eq!(t, "dist"),
        _ => panic!("expected an inspection"),
    }
    // an empty heavy directory is deleted too, and recorded
    let (m, a) = step(m, HibernationEvent::Inspected { exists: true, is_symlink: false });
    assert!(matches!(a, HibernationAction::RemoveTarget(_)));
    let (_, a) = step(m, HibernationEvent::Proceed);
    assert!(matches!(a, HibernationAction::Done(HibernationOutcome::Hibernated { saved_bytes: 9 })));
}

#[test]
fn symlinked_heavy_directory_is_never_deleted() {
    let (m, _) = HibernationMachine::start(false);
    let (m, _) = step(m, HibernationEvent::Analyzed(analyze_project(&names(&["package.json", "package-lock.json", "node_modules"]))));
    let (m, _) = step(m, sizes(vec![100]));
    let (m, _) = step(m, HibernationEvent::Proceed);
    let (m, a) = step(m, HibernationEvent::Inspected { exists: true, is_symlink: true });
    match a {
        HibernationAction::SkipSymlink(t) => assert_eq!(t, "node_modules"),
        _ => panic!("expected the symlink to be skipped"),
    }
    let (_, a) = step(m, HibernationEvent::Proceed);
    assert!(matches!(a, HibernationAction::Done(HibernationOutcome::Hibernated { saved_bytes: 100 })));
}

#[test]
fn measured_symlinks_are_skipped_and_not_recorded() {
    let (m, _) = HibernationMachine::start(false);
    let (m, _) = step(m, HibernationEvent::Analyzed(analyze_project(&names(&["package.json", "package-lock.json", "node_modules", "dist", "build"]))));
    let (m, a) = step(m, measure(vec![100, 0, 7], vec![TargetState::Symlink, TargetState::Absent, TargetState::Present]));
    match a {
        HibernationAction::WriteSnapshot(s) => {
            assert_eq!(s.deleted_paths, names(&["build"]));
            assert_eq!(s.space_saved_bytes, 107);
        }
        _ => panic!("expected the snapshot"),
    }
    let (m, a) = step(m, HibernationEvent::Proceed);
    assert!(matches!(a, HibernationAction::InspectTarget(ref t) if t == "node_modules"));
    let (m, a) = step(m, HibernationEvent::Inspected { exists: true, is_symlink: true });
    assert!(matches!(a, HibernationAction::SkipSymlink(ref t) if t == "node_modules"));
    let (m, a) = step(m, HibernationEvent::Proceed);
    assert!(matches!(a, HibernationAction::InspectTarget(ref t) if t == "dist"));
    let (m, a) = step(m, HibernationEvent::Inspected { exists: false, is_symlink: false });
    assert!(matches!(a, HibernationAction::InspectTarget(ref t) if t == "build"));
    let (m, a) = step(m, HibernationEvent::Inspected { exists: true, is_symlink: false });
    assert!(matches!(a, HibernationAction::RemoveTarget(ref t) if t == "build"));
    let (_, a) = step(m, HibernationEvent::Proceed);
    assert!(matches!(a, HibernationAction::Done(HibernationOutcome::Hibernated { saved_bytes: 107 })));
}

#[test]
fn symlink_with_data_beside_empty_directory() {
    let (m, _) = HibernationMachine::start(false);
    let (m, _) = step(m, HibernationEvent::Analyzed(analyze_project(&names(&["package.json", "package-lock.json", "node_modules", "dist"]))));
    let (m, a) = step(m, measure(vec![5, 0], vec![TargetState::Symlink, TargetState::Present]));
    match a {
        HibernationAction::WriteSnapshot(s) => {
            assert_eq!(s.deleted_paths, names(&["dist"]));
            assert_eq!(s.space_saved_bytes, 5);
        }
        _ => panic!("expected the snapshot"),
    }
    let (m, _) = step(m, HibernationEvent::Proceed);
    let (m, a) = step(m, HibernationEvent::Inspected { exists: true, is_symlink: true });
    assert!(matches!(a, HibernationAction::SkipSymlink(ref t) if t == "node_modules"));
    let (m, _) = step(m, HibernationEvent::Proceed);
    let (m, a) = step(m, HibernationEvent::Inspected { exists: true, is_symlink: false });
    assert!(matches!(a, HibernationAction::RemoveTarget(ref t) if t == "dist"));
    let (_, a) = step(m, HibernationEvent::Proceed);
    assert!(matches!(a, HibernationAction::Done(HibernationOutcome::Hibernated { saved_bytes: 5 })));
    let (m, _) = HibernationMachine::start(false);
    let (m, _) = step(m, HibernationEvent::Analyzed(analyze_project(&names(&["package.json", "package-lock.json", "node_modules"]))));
    let (_, a) = step(m, measure(vec![0], vec![TargetState::Symlink]));
    assert!(matches!(a, HibernationAction::Done(HibernationOutcome::NothingToDelete)));
}

#[test]
fn vanished_heavy_directory_is_passed_over() {
    let (m, _) = HibernationMachine::start(false);
    let (m, _) = step(m, HibernationEvent::Analyzed(analyze_project(&names(&["Cargo.toml", "Cargo.lock", "target"]))));
    let (m, _) = step(m, sizes(vec![100]));
    let (m, _) = step(m, HibernationEvent::Proceed);
    let (_, a) = step(m, HibernationEvent::Inspected { exists: false, is_symlink: false });
    assert!(matches!(a, HibernationAction::Done(HibernationOutcome::Hibernated { saved_bytes: 100 })));
}

#[test]
fn dry_run_only_reports() {
    let (m, _) = HibernationMachine::start(true);
    let (m, _) = step(m, HibernationEvent::Analyzed(analyze_project(&names(&["package.json", "yarn.lock", "node_modules", "build"]))));
    let (_, a) = step(m, sizes(vec![3 * 1024 * 1024, 5]));
    match a {
        HibernationAction::Done(HibernationOutcome::DryRun { deleted_paths, saved_bytes }) => {
            assert_eq!(deleted_paths, names(&["node_modules", "build"]));
            assert_eq!(saved_bytes, 3 * 1024 * 1024 + 5);
        }
        _ => panic!("expected a dry run report"),
    }
    let (m, _) = HibernationMachine::start(true);
    let (_, a) = step(m, HibernationEvent::Analyzed(analyze_project(&names(&["package.json"]))));
    match a {
        HibernationAction::Done(HibernationOutcome::WouldOfferLockfile(c)) => assert_eq!(c, "npm install --package-lock-only"),
        _ => panic!("expected the dry run lockfile report"),
    }
}

#[test]
fn nothing_to_delete() {
    let (m, _) = HibernationMachine::start(false);
    let (m, _) = step(m, HibernationEvent::Analyzed(analyze_project(&names(&["Cargo.toml", "Cargo.lock"]))));
    let (_, a) = step(m, sizes(vec![]));
    assert!(matches!(a, HibernationAction::Done(HibernationOutcome::NothingToDelete)));
    let (m, _) = HibernationMachine::start(false);
    let (m, _) = step(m, HibernationEvent::Analyzed(analyze_project(&names(&["package.json", "package-lock.json", "node_modules"]))));
    let (_, a) = step(m, sizes(vec![0]));
    assert!(matches!(a, HibernationAction::Done(HibernationOutcome::NothingToDelete)));
}

#[test]
fn missing_lockfile_non_interactive_fails_without_deleting() {
    let (m, _) = HibernationMachine::start(false);
    let (m, a) = step(m, HibernationEvent::Analyzed(analyze_project(&names(&["package.json", "node_modules"]))));
    assert!(matches!(a, HibernationAction::CheckTerminal));
    let (_, a) = step(m, HibernationEvent::Interactive(false));
    match a {
        HibernationAction::Done(HibernationOutcome::Failed(HibernationError::NonInteractive(e))) => {
            assert_eq!(e.generation_command, "npm install --package-lock-only")
        }
        _ => panic!("expected a failure"),
    }
}

#[test]
fn missing_lockfile_generated_then_retried() {
    let (m, _) = HibernationMachine::start(false);
    let (m, _) = step(m, HibernationEvent::Analyzed(analyze_project(&names(&["Cargo.toml", "target"]))));
    let (m, a) = step(m, HibernationEvent::Interactive(true));
    match a {
        HibernationAction::OfferLockfile(c) => assert_eq!(c, "cargo generate-lockfile"),
        _ => panic!("expected the offer"),
    }
    let (m, a) = step(m, HibernationEvent::Answer("\r\n".to_string()));
    match a {
        HibernationAction::GenerateLockfile(c) => assert_eq!(c, "cargo generate-lockfile"),
        _ => panic!("expected generation"),
    }
    let (m, a) = step(m, HibernationEvent::LockfileGenerated(true));
    assert!(matches!(a, HibernationAction::Analyze));
    let (_, a) = step(m, HibernationEvent::Analyzed(analyze_project(&names(&["Cargo.toml", "Cargo.lock", "target"]))));
    assert!(matches!(a, HibernationAction::Measure(_)));
}

#[test]
fn missing_lockfile_declined_or_failed() {
    let (m, _) = HibernationMachine::start(false);
    let (m, _) = step(m, HibernationEvent::Analyzed(analyze_project(&names(&["pyproject.toml"]))));
    let (m, _) = step(m, HibernationEvent::Interactive(true));
    let (_, a) = step(m, HibernationEvent::Answer("no\n".to_string()));
    assert!(matches!(a, HibernationAction::Done(HibernationOutcome::SkippedByUser)));
    let (m, _) = HibernationMachine::start(false);
    let (m, _) = step(m, HibernationEvent::Analyzed(analyze_project(&names(&["pyproject.toml"]))));
    let (m, _) = step(m, HibernationEvent::Interactive(true));
    let (m, _) = step(m, HibernationEvent::Answer("Y".to_string()));
    let (_, a) = step(m, HibernationEvent::LockfileGenerated(false));
    assert!(matches!(a, HibernationAction::Done(HibernationOutcome::Failed(HibernationError::LockfileGenerationFailed))));
}

#[test]
fn unanalysable_project_fails() {
    let (m, _) = HibernationMachine::start(false);
    let (_, a) = step(m, HibernationEvent::Analyzed(analyze_project(&names(&["notes.txt"]))));
    assert!(matches!(a, HibernationAction::Done(HibernationOutcome::Failed(HibernationError::AnalysisFailed(_)))));
}

#[test]
fn measurement_must_fit() {
    let (m, _) = HibernationMachine::start(false);
    let (m, _) = step(m, HibernationEvent::Analyzed(analyze_project(&names(&["package.json", "package-lock.json", "node_modules", "dist"]))));
    assert!(!m.accepts(&sizes(vec![u64::MAX, 1])));
    assert!(!m.accepts(&sizes(vec![1])));
    assert!(m.accepts(&sizes(vec![u64::MAX, 0])));
    assert!(m.accepts(&measure(vec![u64::MAX, 1], vec![TargetState::Present, TargetState::Absent])));
    assert!(!m.accepts(&measure(vec![u64::MAX, 1], vec![TargetState::Present, TargetState::Symlink])));
    assert!(!m.accepts(&measure(vec![1, 1], vec![TargetState::Present])));
}

#[test]
fn measurement_is_stamped() {
    match measured(vec![1, 2], vec![TargetState::Present, TargetState::Absent]) {
        HibernationEvent::Measured { sizes, states, hibernated_at } => {
            assert_eq!(sizes, vec![1, 2]);
            assert_eq!(states, vec![TargetState::Present, TargetState::Absent]);
            let chars: Vec<char> = hibernated_at.chars().collect();
            assert_eq!(chars[4], '-');
            assert_eq!(chars[7], '-');
            assert_eq!(chars[10], 'T');
            assert_eq!(chars[13], ':');
            assert!(hibernated_at.ends_with("+00:00"));
        }
        _ => panic!("expected a measurement"),
    }
}

#[test]
fn lockfile_invocations() {
    assert_eq!(lockfile_invocation("npm install --package-lock-only", false), ("npm".to_string(), names(&["install", "--package-lock-only"])));
    assert_eq!(lockfile_invocation("  cargo   generate-lockfile ", false), ("cargo".to_string(), names(&["generate-lockfile"])));
    assert_eq!(lockfile_invocation("poetry lock", true), ("poetry".to_string(), names(&["lock"])));
    assert_eq!(lockfile_invocation("npm install --package-lock-only", true), ("npm.cmd".to_string(), names(&["install", "--package-lock-only"])));
    assert_eq!(lockfile_invocation("yarn install\t--mode update-lockfile", true), ("yarn.cmd".to_string(), names(&["install", "--mode", "update-lockfile"])));
    assert!(!has_words("   "));
    assert!(has_words(" uv lock "));
}
