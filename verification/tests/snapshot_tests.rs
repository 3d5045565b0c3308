use dehydrate::ecosystem::{EcosystemType, PolyglotMetadata};
use dehydrate::hibernate::{build_snapshot, checked_total, counted_sizes, megabytes, plan_hibernation, TargetState};

fn names(items: &[&str]) -> Vec<String> {
    items.iter().map(|s| s.to_string()).collect()
}

#[test]
fn plan_records_every_present_directory() {
    let present = vec![TargetState::Present; 3];
    let plan = plan_hibernation(&names(&["node_modules", "dist", "build"]), &vec![2048, 0, 10], &present);
    assert_eq!(plan.deleted_paths, names(&["node_modules", "dist", "build"]));
    assert_eq!(plan.total_saved_bytes, 2058);
    let empty = plan_hibernation(&names(&["target"]), &vec![0], &vec![TargetState::Absent]);
    assert!(empty.deleted_paths.is_empty());
    assert_eq!(empty.total_saved_bytes, 0);
}

#[test]
fn plan_leaves_symlinks_out() {
    let states = vec![TargetState::Symlink, TargetState::Present, TargetState::Absent];
    let plan = plan_hibernation(&names(&["node_modules", "dist", "build"]), &vec![2048, 5, 0], &states);
    assert_eq!(plan.deleted_paths, names(&["dist"]));
    assert_eq!(plan.total_saved_bytes, 2053);
    assert_eq!(counted_sizes(&vec![2048, 5, 9], &states), vec![2048, 5, 0]);
}

#[test]
fn snapshot_records_the_plan() {
    let metadata = PolyglotMetadata {
        ecosystems: vec![EcosystemType::Node, EcosystemType::Rust],
        package_managers: names(&["npm", "cargo"]),
        install_commands: names(&["npm ci", "cargo fetch"]),
        targets_to_delete: names(&["node_modules", "target"]),
    };
    let plan = plan_hibernation(
        &metadata.targets_to_delete,
        &vec![0, 5 * 1024 * 1024],
        &vec![TargetState::Absent, TargetState::Present],
    );
    let s = build_snapshot("2024-01-01T00:00:00+00:00".to_string(), &metadata, &plan);
    assert_eq!(s.hibernated_at, "2024-01-01T00:00:00+00:00");
    assert_eq!(s.ecosystems, names(&["Node", "Rust"]));
    assert_eq!(s.package_managers, names(&["npm", "cargo"]));
    assert_eq!(s.install_commands, names(&["npm ci", "cargo fetch"]));
    assert_eq!(s.deleted_paths, names(&["target"]));
    assert_eq!(s.space_saved_bytes, 5 * 1024 * 1024);
    assert_eq!(megabytes(s.space_saved_bytes), 5);
}

#[test]
fn megabytes_round_down() {
    assert_eq!(megabytes(0), 0);
    assert_eq!(megabytes(1024 * 1024 - 1), 0);
    assert_eq!(megabytes(3 * 1024 * 1024 + 7), 3);
}

#[test]
fn totals_detect_overflow() {
    assert_eq!(checked_total(&vec![1, 2, 3]), Some(6));
    assert_eq!(checked_total(&Vec::new()), Some(0));
    assert_eq!(checked_total(&vec![u64::MAX, 0]), Some(u64::MAX));
    assert_eq!(checked_total(&vec![u64::MAX, 1]), None);
}
