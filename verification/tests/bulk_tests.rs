use dehydrate::bulk::{BulkAction, BulkEvent, BulkHibernation, BulkOutcome};
use dehydrate::ecosystem::{analyze_project, AnalysisError, PolyglotMetadata};

fn names(items: &[&str]) -> Vec<String> {
    items.iter().map(|s| s.to_string()).collect()
}

fn analysis(entries: &[&str]) -> Result<PolyglotMetadata, AnalysisError> {
    analyze_project(&names(entries))
}

fn bulk_step(b: BulkHibernation, e: BulkEvent) -> (BulkHibernation, BulkAction) {
    assert!(b.accepts(&e));
    b.step(e)
}

fn hibernated(a: &BulkAction) -> Vec<usize> {
    match a {
        BulkAction::Hibernate(list) => list.iter().map(|p| p.index).collect(),
        _ => panic!("expected the projects to hibernate"),
    }
}

fn mixed() -> Vec<Result<PolyglotMetadata, AnalysisError>> {
    vec![
        analysis(&["package.json", "package-lock.json", "node_modules"]),
        analysis(&["package.json", "node_modules"]),
        analysis(&["notes.txt"]),
        analysis(&["Cargo.toml", "target"]),
        analysis(&["Cargo.toml", "Cargo.lock", "target"]),
    ]
}

#[test]
fn bulk_summarizes_the_projects() {
    let (_, a) = BulkHibernation::start(mixed(), false);
    match a {
        BulkAction::Summarize { ready, missing, failed } => {
            assert_eq!((ready, missing, failed), (2, 2, 1));
        }
        _ => panic!("expected a summary"),
    }
}

#[test]
fn bulk_nothing_to_process() {
    let (_, a) = BulkHibernation::start(vec![analysis(&["notes.txt"])], false);
    assert!(matches!(a, BulkAction::Done(BulkOutcome::NothingToProcess)));
    let (_, a) = BulkHibernation::start(Vec::new(), true);
    assert!(matches!(a, BulkAction::Done(BulkOutcome::NothingToProcess)));
}

#[test]
fn bulk_skips_generation_without_a_terminal() {
    let (b, _) = BulkHibernation::start(vec![analysis(&["package.json", "node_modules"])], false);
    let (b, a) = bulk_step(b, BulkEvent::Proceed);
    assert!(matches!(a, BulkAction::CheckTerminal));
    let (b, a) = bulk_step(b, BulkEvent::Interactive(false));
    assert!(matches!(a, BulkAction::NoticeSkipGeneration(1)));
    let (_, a) = bulk_step(b, BulkEvent::Proceed);
    assert!(matches!(a, BulkAction::Done(BulkOutcome::NothingToHibernate)));
}

#[test]
fn bulk_dry_run_never_generates() {
    let (b, _) = BulkHibernation::start(mixed(), true);
    let (b, a) = bulk_step(b, BulkEvent::Proceed);
    assert!(matches!(a, BulkAction::NoticeSkipGeneration(2)));
    let (_, a) = bulk_step(b, BulkEvent::Proceed);
    assert_eq!(hibernated(&a), vec![0, 4]);
}

#[test]
fn bulk_ready_projects_without_missing_lockfiles() {
    let (b, _) = BulkHibernation::start(vec![analysis(&["Cargo.toml", "Cargo.lock"])], false);
    let (_, a) = bulk_step(b, BulkEvent::Proceed);
    assert_eq!(hibernated(&a), vec![0]);
}

#[test]
fn bulk_generates_all_missing_lockfiles() {
    let (b, _) = BulkHibernation::start(mixed(), false);
    let (b, _) = bulk_step(b, BulkEvent::Proceed);
    let (b, a) = bulk_step(b, BulkEvent::Interactive(true));
    assert!(matches!(a, BulkAction::AskBulkChoice { ready: 2, missing: 2 }));
    let (b, a) = bulk_step(b, BulkEvent::Choice(" a\n".to_string()));
    match a {
        BulkAction::Generate { index, command, asked } => {
            assert_eq!(index, 1);
            assert_eq!(command, "npm install --package-lock-only");
            assert!(!asked);
        }
        _ => panic!("expected a generation"),
    }
    let (b, a) = bulk_step(b, BulkEvent::LockfileGenerated(true));
    assert!(matches!(a, BulkAction::Reanalyze(1)));
    let (b, a) = bulk_step(b, BulkEvent::Reanalyzed(analysis(&["package.json", "package-lock.json", "node_modules"])));
    match a {
        BulkAction::Generate { index, command, .. } => {
            assert_eq!(index, 3);
            assert_eq!(command, "cargo generate-lockfile");
        }
        _ => panic!("expected a generation"),
    }
    let (_, a) = bulk_step(b, BulkEvent::LockfileGenerated(false));
    assert_eq!(hibernated(&a), vec![0, 4, 1]);
}

#[test]
fn bulk_rejoins_only_ready_reanalysis() {
    let (b, _) = BulkHibernation::start(vec![analysis(&["package.json"])], false);
    let (b, _) = bulk_step(b, BulkEvent::Proceed);
    let (b, _) = bulk_step(b, BulkEvent::Interactive(true));
    let (b, _) = bulk_step(b, BulkEvent::Choice("A".to_string()));
    let (b, _) = bulk_step(b, BulkEvent::LockfileGenerated(true));
    let (_, a) = bulk_step(b, BulkEvent::Reanalyzed(analysis(&["package.json"])));
    assert!(matches!(a, BulkAction::Done(BulkOutcome::NothingToHibernate)));
}

#[test]
fn bulk_asks_about_each_project() {
    let (b, _) = BulkHibernation::start(mixed(), false);
    let (b, _) = bulk_step(b, BulkEvent::Proceed);
    let (b, _) = bulk_step(b, BulkEvent::Interactive(true));
    let (b, a) = bulk_step(b, BulkEvent::Choice("l".to_string()));
    assert!(matches!(a, BulkAction::AskEach(1)));
    let (b, a) = bulk_step(b, BulkEvent::Answer("n\n".to_string()));
    assert!(matches!(a, BulkAction::AskEach(3)));
    let (b, a) = bulk_step(b, BulkEvent::Answer("\n".to_string()));
    match a {
        BulkAction::Generate { index, asked, .. } => {
            assert_eq!(index, 3);
            assert!(asked);
        }
        _ => panic!("expected a generation"),
    }
    let (b, _) = bulk_step(b, BulkEvent::LockfileGenerated(true));
    let (_, a) = bulk_step(b, BulkEvent::Reanalyzed(analysis(&["Cargo.toml", "Cargo.lock", "target"])));
    assert_eq!(hibernated(&a), vec![0, 4, 3]);
}

#[test]
fn bulk_skips_missing_on_request() {
    let (b, _) = BulkHibernation::start(mixed(), false);
    let (b, _) = bulk_step(b, BulkEvent::Proceed);
    let (b, _) = bulk_step(b, BulkEvent::Interactive(true));
    let (b, a) = bulk_step(b, BulkEvent::Choice("N".to_string()));
    assert!(matches!(a, BulkAction::NoticeSkipMissing));
    assert!(!b.accepts(&BulkEvent::Answer("y".to_string())));
    let (_, a) = bulk_step(b, BulkEvent::Proceed);
    assert_eq!(hibernated(&a), vec![0, 4]);
}
