use dehydrate::scanner::{is_ignored_entry, is_project_marker, project_dirs, ProjectActivity, Scanner, WalkedFile};

const DAY: i128 = 86_400_000_000_000;

fn file(name: &str, parent: Option<&str>) -> WalkedFile {
    WalkedFile { name: name.to_string(), parent: parent.map(|p| p.to_string()) }
}

#[test]
fn project_markers() {
    for m in ["package.json", "Cargo.toml", "requirements.txt", "pyproject.toml"] {
        assert!(is_project_marker(m));
    }
    for m in ["Cargo.lock", "package-lock.json", "setup.py", "", "package.json "] {
        assert!(!is_project_marker(m));
    }
}

#[test]
fn ignored_entries() {
    for n in ["node_modules", "target", "venv", ".venv", ".git", ".idea", ".vscode", ".DS_Store"] {
        assert!(is_ignored_entry(n));
    }
    for n in ["src", "dist", "build", "__pycache__", ".dehydrate.json"] {
        assert!(!is_ignored_entry(n));
    }
}

#[test]
fn project_dirs_once_in_first_seen_order() {
    let files = vec![
        file("main.rs", Some("/a/src")),
        file("Cargo.toml", Some("/a")),
        file("package.json", Some("/b")),
        file("package.json", Some("/a")),
        file("requirements.txt", Some("/b")),
        file("pyproject.toml", Some("/c")),
        file("Cargo.toml", None),
    ];
    assert_eq!(project_dirs(&files), vec!["/a".to_string(), "/b".to_string(), "/c".to_string()]);
    assert!(project_dirs(&Vec::new()).is_empty());
}

#[test]
fn scanner_settings() {
    let s = Scanner::new(60, 100);
    assert_eq!(s.stale_days(), 60);
    assert_eq!(s.max_depth(), 100);
}

#[test]
fn staleness_counts_whole_days() {
    let s = Scanner::new(60, 100);
    let modified = vec![5 * DAY, 10 * DAY, 7 * DAY];
    assert!(!s.is_stale(&modified, 70 * DAY - 1));
    assert!(s.is_stale(&modified, 70 * DAY));
    assert!(s.is_stale(&modified, 500 * DAY));
}

#[test]
fn staleness_with_clock_behind_modification() {
    let s = Scanner::new(0, 100);
    assert!(!s.is_stale(&vec![10 * DAY], 10 * DAY - 1));
    assert!(s.is_stale(&vec![10 * DAY], 10 * DAY));
}

#[test]
fn staleness_without_files_counts_from_epoch() {
    let s = Scanner::new(30, 5);
    assert!(s.is_stale(&Vec::new(), 30 * DAY));
    assert!(!s.is_stale(&Vec::new(), 29 * DAY));
    assert!(!s.is_stale(&vec![-5 * DAY], -DAY));
    assert!(s.is_stale(&vec![-5 * DAY], 31 * DAY));
}

#[test]
fn scan_skips_recent_and_hibernated_projects() {
    let s = Scanner::new(60, 100);
    let now = 1000 * DAY;
    let projects = vec![
        ProjectActivity { dir: "/old".to_string(), modified_times: vec![100 * DAY], hibernated: false },
        ProjectActivity { dir: "/fresh".to_string(), modified_times: vec![999 * DAY], hibernated: false },
        ProjectActivity { dir: "/asleep".to_string(), modified_times: vec![100 * DAY], hibernated: true },
        ProjectActivity { dir: "/older".to_string(), modified_times: vec![1 * DAY, 2 * DAY], hibernated: false },
    ];
    assert_eq!(s.scan(&projects, now), vec!["/old".to_string(), "/older".to_string()]);
}
