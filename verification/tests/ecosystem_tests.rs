use dehydrate::ecosystem::{analyze_project, AnalysisError, EcosystemType, MissingLockfileError};

fn names(items: &[&str]) -> Vec<String> {
    items.iter().map(|s| s.to_string()).collect()
}

#[test]
fn node_project_with_npm_lockfile() {
    let m = analyze_project(&names(&["package.json", "package-lock.json", "node_modules", "src"])).unwrap();
    assert_eq!(m.ecosystems, vec![EcosystemType::Node]);
    assert_eq!(m.package_managers, vec!["npm".to_string()]);
    assert_eq!(m.install_commands, vec!["npm ci".to_string()]);
    assert_eq!(m.targets_to_delete, vec!["node_modules".to_string()]);
}

#[test]
fn node_lockfile_priority_pnpm_before_yarn() {
    let m = analyze_project(&names(&["package.json", "yarn.lock", "pnpm-lock.yaml"])).unwrap();
    assert_eq!(m.package_managers, vec!["pnpm".to_string()]);
    assert_eq!(m.install_commands, vec!["pnpm install".to_string()]);
    assert!(m.targets_to_delete.is_empty());
}

#[test]
fn node_bun_and_yarn() {
    let m = analyze_project(&names(&["package.json", "bun.lockb"])).unwrap();
    assert_eq!(m.install_commands, vec!["bun install".to_string()]);
    let m = analyze_project(&names(&["package.json", "yarn.lock", "package-lock.json"])).unwrap();
    assert_eq!(m.install_commands, vec!["yarn install".to_string()]);
}

#[test]
fn node_heavy_dirs_in_fixed_order() {
    let m = analyze_project(&names(&["build", ".next", "package.json", "dist", "package-lock.json", "node_modules"])).unwrap();
    assert_eq!(m.targets_to_delete, names(&["node_modules", "dist", ".next", "build"]));
}

#[test]
fn node_without_lockfile_is_refused() {
    match analyze_project(&names(&["package.json", "node_modules"])) {
        Err(AnalysisError::MissingLockfile(e)) => {
            assert_eq!(e.ecosystem, "Node.js");
            assert_eq!(e.generation_command, "npm install --package-lock-only");
            assert_eq!(e.message(), "Missing strict lockfile. Auto-generation command: npm install --package-lock-only");
        }
        other => panic!("unexpected {:?}", other.map(|m| m.ecosystems)),
    }
}

#[test]
fn rust_project() {
    let m = analyze_project(&names(&["Cargo.toml", "Cargo.lock", "target"])).unwrap();
    assert_eq!(m.ecosystems, vec![EcosystemType::Rust]);
    assert_eq!(m.package_managers, vec!["cargo".to_string()]);
    assert_eq!(m.install_commands, vec!["cargo fetch".to_string()]);
    assert_eq!(m.targets_to_delete, vec!["target".to_string()]);
}

#[test]
fn rust_without_lockfile_is_refused() {
    match analyze_project(&names(&["Cargo.toml", "target"])) {
        Err(AnalysisError::MissingLockfile(e)) => {
            assert_eq!(e.ecosystem, "Rust");
            assert_eq!(e.generation_command, "cargo generate-lockfile");
        }
        _ => panic!("expected a missing lockfile"),
    }
}

#[test]
fn python_package_managers() {
    let m = analyze_project(&names(&["pyproject.toml", "poetry.lock", ".venv", "__pycache__"])).unwrap();
    assert_eq!(m.package_managers, vec!["poetry".to_string()]);
    assert_eq!(m.install_commands, vec!["poetry install".to_string()]);
    assert_eq!(m.targets_to_delete, names(&[".venv", "__pycache__"]));
    let m = analyze_project(&names(&["requirements.txt", "Pipfile.lock"])).unwrap();
    assert_eq!(m.install_commands, vec!["pipenv install".to_string()]);
    let m = analyze_project(&names(&["requirements.txt", "venv", ".pytest_cache"])).unwrap();
    assert_eq!(m.package_managers, vec!["pip".to_string()]);
    assert_eq!(m.install_commands, vec!["pip install -r requirements.txt".to_string()]);
    assert_eq!(m.targets_to_delete, names(&["venv", ".pytest_cache"]));
}

#[test]
fn pyproject_without_poetry_lock_is_refused() {
    match analyze_project(&names(&["pyproject.toml"])) {
        Err(AnalysisError::MissingLockfile(e)) => {
            assert_eq!(e.ecosystem, "Python (Poetry)");
            assert_eq!(e.generation_command, "poetry lock");
        }
        _ => panic!("expected a missing lockfile"),
    }
}

#[test]
fn polyglot_project_keeps_ecosystem_order() {
    let m = analyze_project(&names(&[
        "requirements.txt", "Cargo.lock", "Cargo.toml", "target", "package.json", "yarn.lock", "node_modules", "venv",
    ]))
    .unwrap();
    assert_eq!(m.ecosystems, vec![EcosystemType::Node, EcosystemType::Rust, EcosystemType::Python]);
    assert_eq!(m.package_managers, names(&["yarn", "cargo", "pip"]));
    assert_eq!(m.install_commands, names(&["yarn install", "cargo fetch", "pip install -r requirements.txt"]));
    assert_eq!(m.targets_to_delete, names(&["node_modules", "target", "venv"]));
}

#[test]
fn first_failing_ecosystem_decides_the_error() {
    match analyze_project(&names(&["package.json", "Cargo.toml", "pyproject.toml"])) {
        Err(AnalysisError::MissingLockfile(e)) => assert_eq!(e.ecosystem, "Node.js"),
        _ => panic!("expected the Node lockfile to be missing"),
    }
    match analyze_project(&names(&["package.json", "package-lock.json", "Cargo.toml"])) {
        Err(AnalysisError::MissingLockfile(e)) => assert_eq!(e.ecosystem, "Rust"),
        _ => panic!("expected the Rust lockfile to be missing"),
    }
}

#[test]
fn unknown_ecosystem() {
    assert!(matches!(analyze_project(&names(&["README.md", "node_modules", "Cargo.lock"])), Err(AnalysisError::UnknownEcosystem)));
    assert!(matches!(analyze_project(&Vec::new()), Err(AnalysisError::UnknownEcosystem)));
}

#[test]
fn ecosystem_names_as_recorded() {
    assert_eq!(EcosystemType::Node.name(), "Node");
    assert_eq!(EcosystemType::Rust.name(), "Rust");
    assert_eq!(EcosystemType::Python.name(), "Python");
}

#[test]
fn missing_lockfile_message() {
    let e = MissingLockfileError { ecosystem: "Rust".to_string(), generation_command: "cargo generate-lockfile".to_string() };
    assert_eq!(e.message(), "Missing strict lockfile. Auto-generation command: cargo generate-lockfile");
}
