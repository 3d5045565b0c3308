use vstd::prelude::*;

use crate::text::{has_name, names_of};

verus! {

/// The language ecosystems that a project directory can use.
#[derive(Debug, Clone, Copy, PartialEq, Eq, Structural)]
pub enum EcosystemType {
    Node,
    Rust,
    Python,
}

impl EcosystemType {
    /// The name under which an ecosystem is recorded in a snapshot.
    pub open spec fn spec_name(self) -> Seq<char> {
        match self {
            EcosystemType::Node => "Node"@,
            EcosystemType::Rust => "Rust"@,
            EcosystemType::Python => "Python"@,
        }
    }

    /// The name under which an ecosystem is recorded in a snapshot.
    pub fn name(&self) -> (s: String)
        ensures
            s@ == self.spec_name(),
    {
        match self {
            EcosystemType::Node => String::from_str("Node"),
            EcosystemType::Rust => String::from_str("Rust"),
            EcosystemType::Python => String::from_str("Python"),
        }
    }
}

/// A project whose ecosystem was recognised lacks the lockfile that a
/// deterministic reinstall needs; `generation_command` would create it.
#[derive(Debug)]
pub struct MissingLockfileError {
    pub ecosystem: String,
    pub generation_command: String,
}

impl MissingLockfileError {
    pub open spec fn spec_message(self) -> Seq<char> {
        "Missing strict lockfile. Auto-generation command: "@ + self.generation_command@
    }

    /// The text by which the error is shown to a user.
    pub fn message(&self) -> (s: String)
        ensures
            s@ == self.spec_message(),
    {
        let s = String::from_str("Missing strict lockfile. Auto-generation command: ");
        s.concat(self.generation_command.as_str())
    }
}

/// What hibernation needs to know of a project: its ecosystems, in the order
/// Node, Rust, Python, with the package manager and install command of each,
/// and the names of the heavy directories (entries of the project directory)
/// that can be deleted.
pub struct PolyglotMetadata {
    pub ecosystems: Vec<EcosystemType>,
    pub package_managers: Vec<String>,
    pub install_commands: Vec<String>,
    pub targets_to_delete: Vec<String>,
}

/// The mathematical content of a `PolyglotMetadata`.
pub struct MetadataModel {
    pub ecosystems: Seq<EcosystemType>,
    pub package_managers: Seq<Seq<char>>,
    pub install_commands: Seq<Seq<char>>,
    pub targets_to_delete: Seq<Seq<char>>,
}

impl View for PolyglotMetadata {
    type V = MetadataModel;

    open spec fn view(&self) -> MetadataModel {
        MetadataModel {
            ecosystems: self.ecosystems@,
            package_managers: names_of(self.package_managers@),
            install_commands: names_of(self.install_commands@),
            targets_to_delete: names_of(self.targets_to_delete@),
        }
    }
}

/// Why a project cannot be hibernated.
#[derive(Debug)]
pub enum AnalysisError {
    /// A recognised ecosystem lacks its lockfile.
    MissingLockfile(MissingLockfileError),
    /// A Python project has neither a lockfile, nor `requirements.txt`, nor `pyproject.toml`.
    NoPythonLockfile,
    /// No marker file of any supported ecosystem is present.
    UnknownEcosystem,
}

/// The mathematical content of an analysis result.
pub enum AnalysisModel {
    Ready(MetadataModel),
    MissingLockfile { ecosystem: Seq<char>, generation_command: Seq<char> },
    NoPythonLockfile,
    UnknownEcosystem,
}

pub open spec fn analysis_model(r: Result<PolyglotMetadata, AnalysisError>) -> AnalysisModel {
    match r {
        Ok(m) => AnalysisModel::Ready(m@),
        Err(AnalysisError::MissingLockfile(e)) => AnalysisModel::MissingLockfile {
            ecosystem: e.ecosystem@,
            generation_command: e.generation_command@,
        },
        Err(AnalysisError::NoPythonLockfile) => AnalysisModel::NoPythonLockfile,
        Err(AnalysisError::UnknownEcosystem) => AnalysisModel::UnknownEcosystem,
    }
}

/// What one ecosystem contributes to the metadata.
pub struct SingleModel {
    pub ecosystem: EcosystemType,
    pub package_manager: Seq<char>,
    pub install_command: Seq<char>,
    pub targets_to_delete: Seq<Seq<char>>,
}

/// The candidates, in their order, that are among the present names.
pub open spec fn present_among(present: Seq<Seq<char>>, candidates: Seq<Seq<char>>) -> Seq<
    Seq<char>,
>
    decreases candidates.len(),
{
    if candidates.len() == 0 {
        seq![]
    } else {
        let rest = present_among(present, candidates.drop_last());
        if present.contains(candidates.last()) {
            rest.push(candidates.last())
        } else {
            rest
        }
    }
}

pub open spec fn node_heavy_dirs() -> Seq<Seq<char>> {
    seq!["node_modules"@, "dist"@, ".next"@, "build"@]
}

pub open spec fn rust_heavy_dirs() -> Seq<Seq<char>> {
    seq!["target"@]
}

pub open spec fn python_heavy_dirs() -> Seq<Seq<char>> {
    seq!["venv"@, ".venv"@, "__pycache__"@, ".pytest_cache"@]
}

/// The Node analysis: the first lockfile present, in the order pnpm, yarn,
/// npm, bun, decides the package manager.
pub open spec fn node_analysis(present: Seq<Seq<char>>) -> Result<SingleModel, AnalysisModel> {
    let targets = present_among(present, node_heavy_dirs());
    if present.contains("pnpm-lock.yaml"@) {
        Ok(SingleModel { ecosystem: EcosystemType::Node, package_manager: "pnpm"@, install_command: "pnpm install"@, targets_to_delete: targets })
    } else if present.contains("yarn.lock"@) {
        Ok(SingleModel { ecosystem: EcosystemType::Node, package_manager: "yarn"@, install_command: "yarn install"@, targets_to_delete: targets })
    } else if present.contains("package-lock.json"@) {
        Ok(SingleModel { ecosystem: EcosystemType::Node, package_manager: "npm"@, install_command: "npm ci"@, targets_to_delete: targets })
    } else if present.contains("bun.lockb"@) {
        Ok(SingleModel { ecosystem: EcosystemType::Node, package_manager: "bun"@, install_command: "bun install"@, targets_to_delete: targets })
    } else {
        Err(AnalysisModel::MissingLockfile { ecosystem: "Node.js"@, generation_command: "npm install --package-lock-only"@ })
    }
}

/// The Rust analysis: `Cargo.lock` must be present.
pub open spec fn rust_analysis(present: Seq<Seq<char>>) -> Result<SingleModel, AnalysisModel> {
    if !present.contains("Cargo.lock"@) {
        Err(AnalysisModel::MissingLockfile { ecosystem: "Rust"@, generation_command: "cargo generate-lockfile"@ })
    } else {
        Ok(SingleModel { ecosystem: EcosystemType::Rust, package_manager: "cargo"@, install_command: "cargo fetch"@, targets_to_delete: present_among(present, rust_heavy_dirs()) })
    }
}

/// The Python analysis: poetry, then pipenv, then pinned requirements decide
/// the package manager; a `pyproject.toml` without `poetry.lock` lacks a lockfile.
pub open spec fn python_analysis(present: Seq<Seq<char>>) -> Result<SingleModel, AnalysisModel> {
    let targets = present_among(present, python_heavy_dirs());
    if present.contains("poetry.lock"@) {
        Ok(SingleModel { ecosystem: EcosystemType::Python, package_manager: "poetry"@, install_command: "poetry install"@, targets_to_delete: targets })
    } else if present.contains("Pipfile.lock"@) {
        Ok(SingleModel { ecosystem: EcosystemType::Python, package_manager: "pipenv"@, install_command: "pipenv install"@, targets_to_delete: targets })
    } else if present.contains("requirements.txt"@) {
        Ok(SingleModel { ecosystem: EcosystemType::Python, package_manager: "pip"@, install_command: "pip install -r requirements.txt"@, targets_to_delete: targets })
    } else if present.contains("pyproject.toml"@) {
        Err(AnalysisModel::MissingLockfile { ecosystem: "Python (Poetry)"@, generation_command: "poetry lock"@ })
    } else {
        Err(AnalysisModel::NoPythonLockfile)
    }
}

pub open spec fn single_analysis(present: Seq<Seq<char>>, e: EcosystemType) -> Result<SingleModel, AnalysisModel> {
    match e {
        EcosystemType::Node => node_analysis(present),
        EcosystemType::Rust => rust_analysis(present),
        EcosystemType::Python => python_analysis(present),
    }
}

/// The ecosystems whose marker files are present, in the order Node, Rust, Python.
pub open spec fn detected_ecosystems(present: Seq<Seq<char>>) -> Seq<EcosystemType> {
    let node: Seq<EcosystemType> = if present.contains("package.json"@) { seq![EcosystemType::Node] } else { seq![] };
    let rust: Seq<EcosystemType> = if present.contains("Cargo.toml"@) { seq![EcosystemType::Rust] } else { seq![] };
    let python: Seq<EcosystemType> = if present.contains("requirements.txt"@) || present.contains("pyproject.toml"@) {
        seq![EcosystemType::Python]
    } else {
        seq![]
    };
    node + rust + python
}

pub open spec fn empty_metadata() -> MetadataModel {
    MetadataModel { ecosystems: seq![], package_managers: seq![], install_commands: seq![], targets_to_delete: seq![] }
}

pub open spec fn add_single(m: MetadataModel, s: SingleModel) -> MetadataModel {
    MetadataModel {
        ecosystems: m.ecosystems.push(s.ecosystem),
        package_managers: m.package_managers.push(s.package_manager),
        install_commands: m.install_commands.push(s.install_command),
        targets_to_delete: m.targets_to_delete + s.targets_to_delete,
    }
}

/// Analyses the given ecosystems in order; the first that fails decides the error.
pub open spec fn combine(present: Seq<Seq<char>>, ecos: Seq<EcosystemType>) -> AnalysisModel
    decreases ecos.len(),
{
    if ecos.len() == 0 {
        AnalysisModel::Ready(empty_metadata())
    } else {
        match combine(present, ecos.drop_last()) {
            AnalysisModel::Ready(m) => match single_analysis(present, ecos.last()) {
                Ok(s) => AnalysisModel::Ready(add_single(m, s)),
                Err(e) => e,
            },
            e => e,
        }
    }
}

/// The analysis of a project directory whose present entries have the given names.
pub open spec fn project_analysis(present: Seq<Seq<char>>) -> AnalysisModel {
    match combine(present, detected_ecosystems(present)) {
        AnalysisModel::Ready(m) => if m.ecosystems.len() == 0 {
            AnalysisModel::UnknownEcosystem
        } else {
            AnalysisModel::Ready(m)
        },
        e => e,
    }
}

struct SingleMetadata {
    ecosystem: EcosystemType,
    package_manager: String,
    install_command: String,
    targets_to_delete: Vec<String>,
}

impl View for SingleMetadata {
    type V = SingleModel;

    closed spec fn view(&self) -> SingleModel {
        SingleModel {
            ecosystem: self.ecosystem,
            package_manager: self.package_manager@,
            install_command: self.install_command@,
            targets_to_delete: names_of(self.targets_to_delete@),
        }
    }
}

spec fn single_result_model(r: Result<SingleMetadata, AnalysisError>) -> Result<SingleModel, AnalysisModel> {
    match r {
        Ok(s) => Ok(s@),
        Err(e) => Err(analysis_model(Err(e))),
    }
}

/// Appends `name` to `targets` when it is among the present entries.
fn push_if_present(targets: &mut Vec<String>, present: &Vec<String>, name: &str)
    ensures
        names_of(final(targets)@) == if names_of(present@).contains(name@) {
            names_of(old(targets)@).push(name@)
        } else {
            names_of(old(targets)@)
        },
{
    if has_name(present, name) {
        targets.push(String::from_str(name));
        assert(names_of(targets@) =~= names_of(old(targets)@).push(name@));
    }
}

fn missing_lockfile(ecosystem: &str, command: &str) -> (r: AnalysisError)
    ensures
        analysis_model(Err(r)) == (AnalysisModel::MissingLockfile { ecosystem: ecosystem@, generation_command: command@ }),
{
    AnalysisError::MissingLockfile(MissingLockfileError {
        ecosystem: String::from_str(ecosystem),
        generation_command: String::from_str(command),
    })
}

fn analyze_node(present: &Vec<String>) -> (r: Result<SingleMetadata, AnalysisError>)
    ensures
        single_result_model(r) == node_analysis(names_of(present@)),
{
    let ghost p = names_of(present@);
    let mut targets: Vec<String> = Vec::new();
    proof {
        assert(names_of(targets@) =~= seq![]);
    }
    push_if_present(&mut targets, present, "node_modules");
    push_if_present(&mut targets, present, "dist");
    push_if_present(&mut targets, present, ".next");
    push_if_present(&mut targets, present, "build");
    proof {
        reveal_with_fuel(present_among, 5);
        let h = node_heavy_dirs();
        assert(h.drop_last() =~= seq!["node_modules"@, "dist"@, ".next"@]);
        assert(h.drop_last().drop_last() =~= seq!["node_modules"@, "dist"@]);
        assert(h.drop_last().drop_last().drop_last() =~= seq!["node_modules"@]);
        assert(h.drop_last().drop_last().drop_last().drop_last() =~= seq![]);
        assert(names_of(targets@) == present_among(p, h));
    }
    let (pm, cmd) = if has_name(present, "pnpm-lock.yaml") {
        ("pnpm", "pnpm install")
    } else if has_name(present, "yarn.lock") {
        ("yarn", "yarn install")
    } else if has_name(present, "package-lock.json") {
        ("npm", "npm ci")
    } else if has_name(present, "bun.lockb") {
        ("bun", "bun install")
    } else {
        return Err(missing_lockfile("Node.js", "npm install --package-lock-only"));
    };
    Ok(SingleMetadata {
        ecosystem: EcosystemType::Node,
        package_manager: String::from_str(pm),
        install_command: String::from_str(cmd),
        targets_to_delete: targets,
    })
}

fn analyze_rust(present: &Vec<String>) -> (r: Result<SingleMetadata, AnalysisError>)
    ensures
        single_result_model(r) == rust_analysis(names_of(present@)),
{
    let mut targets: Vec<String> = Vec::new();
    proof {
        assert(names_of(targets@) =~= seq![]);
    }
    push_if_present(&mut targets, present, "target");
    proof {
        reveal_with_fuel(present_among, 2);
        assert(rust_heavy_dirs().drop_last() =~= seq![]);
    }
    if !has_name(present, "Cargo.lock") {
        return Err(missing_lockfile("Rust", "cargo generate-lockfile"));
    }
    Ok(SingleMetadata {
        ecosystem: EcosystemType::Rust,
        package_manager: String::from_str("cargo"),
        install_command: String::from_str("cargo fetch"),
        targets_to_delete: targets,
    })
}

fn analyze_python(present: &Vec<String>) -> (r: Result<SingleMetadata, AnalysisError>)
    ensures
        single_result_model(r) == python_analysis(names_of(present@)),
{
    let ghost p = names_of(present@);
    let mut targets: Vec<String> = Vec::new();
    proof {
        assert(names_of(targets@) =~= seq![]);
    }
    push_if_present(&mut targets, present, "venv");
    push_if_present(&mut targets, present, ".venv");
    push_if_present(&mut targets, present, "__pycache__");
    push_if_present(&mut targets, present, ".pytest_cache");
    proof {
        reveal_with_fuel(present_among, 5);
        let h = python_heavy_dirs();
        assert(h.drop_last() =~= seq!["venv"@, ".venv"@, "__pycache__"@]);
        assert(h.drop_last().drop_last() =~= seq!["venv"@, ".venv"@]);
        assert(h.drop_last().drop_last().drop_last() =~= seq!["venv"@]);
        assert(h.drop_last().drop_last().drop_last().drop_last() =~= seq![]);
        assert(names_of(targets@) == present_among(p, h));
    }
    let (pm, cmd) = if has_name(present, "poetry.lock") {
        ("poetry", "poetry install")
    } else if has_name(present, "Pipfile.lock") {
        ("pipenv", "pipenv install")
    } else if has_name(present, "requirements.txt") {
        // pip has no strict lockfile; pinned requirements stand in for one
        ("pip", "pip install -r requirements.txt")
    } else if has_name(present, "pyproject.toml") {
        return Err(missing_lockfile("Python (Poetry)", "poetry lock"));
    } else {
        return Err(AnalysisError::NoPythonLockfile);
    };
    Ok(SingleMetadata {
        ecosystem: EcosystemType::Python,
        package_manager: String::from_str(pm),
        install_command: String::from_str(cmd),
        targets_to_delete: targets,
    })
}

/// Adds one ecosystem's contribution to the metadata.
fn absorb(metadata: &mut PolyglotMetadata, single: SingleMetadata)
    ensures
        final(metadata)@ == add_single(old(metadata)@, single@),
{
    let SingleMetadata { ecosystem, package_manager, install_command, targets_to_delete } = single;
    let mut targets = targets_to_delete;
    let ghost t = targets@;
    metadata.ecosystems.push(ecosystem);
    metadata.package_managers.push(package_manager);
    metadata.install_commands.push(install_command);
    metadata.targets_to_delete.append(&mut targets);
    proof {
        assert(names_of(metadata.package_managers@) =~= names_of(old(metadata).package_managers@).push(package_manager@));
        assert(names_of(metadata.install_commands@) =~= names_of(old(metadata).install_commands@).push(install_command@));
        assert(names_of(metadata.targets_to_delete@) =~= names_of(old(metadata).targets_to_delete@) + names_of(t));
    }
}

/// Decides how a project directory is hibernated and rehydrated, from the
/// names of the entries that exist in it. Every recognised ecosystem must have
/// its lockfile; the first one that lacks it decides the error.
pub fn analyze_project(present: &Vec<String>) -> (r: Result<PolyglotMetadata, AnalysisError>)
    ensures
        analysis_model(r) == project_analysis(names_of(present@)),
{
    let ghost p = names_of(present@);
    let mut metadata = PolyglotMetadata {
        ecosystems: Vec::new(),
        package_managers: Vec::new(),
        install_commands: Vec::new(),
        targets_to_delete: Vec::new(),
    };
    let ghost mut done: Seq<EcosystemType> = seq![];
    proof {
        assert(metadata@ == empty_metadata()) by {
            assert(names_of(metadata.package_managers@) =~= seq![]);
            assert(names_of(metadata.install_commands@) =~= seq![]);
            assert(names_of(metadata.targets_to_delete@) =~= seq![]);
        }
        assert(combine(p, done) == AnalysisModel::Ready(metadata@));
    }

    if has_name(present, "package.json") {
        let r = analyze_node(present);
        proof {
            let d2 = done.push(EcosystemType::Node);
            assert(d2.drop_last() =~= done);
        }
        match r {
            Ok(m) => {
                absorb(&mut metadata, m);
                proof { done = done.push(EcosystemType::Node); }
            }
            Err(e) => {
                proof {
                    assert(detected_ecosystems(p)[0] == EcosystemType::Node);
                    lemma_combine_error_prefix(p, seq![EcosystemType::Node], detected_ecosystems(p));
                }
                return Err(e);
            }
        }
    }
    assert(done =~= (if p.contains("package.json"@) { seq![EcosystemType::Node] } else { seq![] }));

    if has_name(present, "Cargo.toml") {
        let r = analyze_rust(present);
        proof {
            let d2 = done.push(EcosystemType::Rust);
            assert(d2.drop_last() =~= done);
        }
        match r {
            Ok(m) => {
                absorb(&mut metadata, m);
                proof { done = done.push(EcosystemType::Rust); }
            }
            Err(e) => {
                proof {
                    let d2 = done.push(EcosystemType::Rust);
                    assert(d2 =~= detected_ecosystems(p).subrange(0, d2.len() as int));
                    lemma_combine_error_prefix(p, d2, detected_ecosystems(p));
                }
                return Err(e);
            }
        }
    }

    if has_name(present, "requirements.txt") || has_name(present, "pyproject.toml") {
        let r = analyze_python(present);
        proof {
            let d2 = done.push(EcosystemType::Python);
            assert(d2.drop_last() =~= done);
        }
        match r {
            Ok(m) => {
                absorb(&mut metadata, m);
                proof { done = done.push(EcosystemType::Python); }
            }
            Err(e) => {
                proof {
                    let d2 = done.push(EcosystemType::Python);
                    assert(d2 =~= detected_ecosystems(p));
                }
                return Err(e);
            }
        }
    }
    assert(done =~= detected_ecosystems(p));

    if metadata.ecosystems.len() == 0 {
        return Err(AnalysisError::UnknownEcosystem);
    }
    Ok(metadata)
}

/// Once a prefix of the ecosystems fails, the whole analysis fails the same way.
proof fn lemma_combine_error_prefix(present: Seq<Seq<char>>, prefix: Seq<EcosystemType>, ecos: Seq<EcosystemType>)
    requires
        prefix.len() <= ecos.len(),
        prefix =~= ecos.subrange(0, prefix.len() as int),
        !(combine(present, prefix) is Ready),
    ensures
        combine(present, ecos) == combine(present, prefix),
    decreases ecos.len(),
{
    if ecos.len() > prefix.len() {
        let shorter = ecos.drop_last();
        assert(prefix =~= shorter.subrange(0, prefix.len() as int));
        lemma_combine_error_prefix(present, prefix, shorter);
    } else {
        assert(prefix =~= ecos);
    }
}

/// Whether the lockfile that a deterministic reinstall of an ecosystem needs is present.
pub open spec fn has_lockfile(present: Seq<Seq<char>>, e: EcosystemType) -> bool {
    match e {
        EcosystemType::Node => present.contains("pnpm-lock.yaml"@) || present.contains("yarn.lock"@)
            || present.contains("package-lock.json"@) || present.contains("bun.lockb"@),
        EcosystemType::Rust => present.contains("Cargo.lock"@),
        EcosystemType::Python => present.contains("poetry.lock"@) || present.contains("Pipfile.lock"@)
            || present.contains("requirements.txt"@),
    }
}

/// The heavy dependency directories of an ecosystem.
pub open spec fn heavy_dirs(e: EcosystemType) -> Seq<Seq<char>> {
    match e {
        EcosystemType::Node => node_heavy_dirs(),
        EcosystemType::Rust => rust_heavy_dirs(),
        EcosystemType::Python => python_heavy_dirs(),
    }
}

/// Whether a name is a heavy directory of one of the given ecosystems.
pub open spec fn heavy_dir_of(ecos: Seq<EcosystemType>, name: Seq<char>) -> bool {
    exists|i: int| 0 <= i < ecos.len() && #[trigger] heavy_dirs(ecos[i]).contains(name)
}

/// The package manager and install command that an ecosystem's analysis records.
pub open spec fn recorded_manager(e: EcosystemType, pm: Seq<char>, cmd: Seq<char>) -> bool {
    match e {
        EcosystemType::Node => (pm == "pnpm"@ && cmd == "pnpm install"@) || (pm == "yarn"@ && cmd
            == "yarn install"@) || (pm == "npm"@ && cmd == "npm ci"@) || (pm == "bun"@ && cmd
            == "bun install"@),
        EcosystemType::Rust => pm == "cargo"@ && cmd == "cargo fetch"@,
        EcosystemType::Python => (pm == "poetry"@ && cmd == "poetry install"@) || (pm == "pipenv"@
            && cmd == "pipenv install"@) || (pm == "pip"@ && cmd == "pip install -r requirements.txt"@),
    }
}

/// What holds of every metadata that an analysis of the given ecosystems produces.
pub open spec fn sound_metadata(present: Seq<Seq<char>>, ecos: Seq<EcosystemType>, m: MetadataModel) -> bool {
    &&& m.ecosystems == ecos
    &&& m.package_managers.len() == ecos.len()
    &&& m.install_commands.len() == ecos.len()
    &&& forall|i: int| 0 <= i < ecos.len() ==> #[trigger] has_lockfile(present, ecos[i])
    &&& forall|i: int| 0 <= i < ecos.len() ==> #[trigger] recorded_manager(ecos[i], m.package_managers[i], m.install_commands[i])
    &&& forall|k: int| 0 <= k < m.targets_to_delete.len() ==> present.contains(#[trigger] m.targets_to_delete[k])
    &&& forall|k: int| 0 <= k < m.targets_to_delete.len() ==> heavy_dir_of(ecos, #[trigger] m.targets_to_delete[k])
}

proof fn lemma_present_among(present: Seq<Seq<char>>, candidates: Seq<Seq<char>>)
    ensures
        forall|k: int| 0 <= k < present_among(present, candidates).len() ==> present.contains(
            #[trigger] present_among(present, candidates)[k],
        ) && candidates.contains(present_among(present, candidates)[k]),
    decreases candidates.len(),
{
    if candidates.len() > 0 {
        let c = candidates.drop_last();
        lemma_present_among(present, c);
        let r = present_among(present, candidates);
        assert forall|k: int| 0 <= k < r.len() implies present.contains(#[trigger] r[k]) && candidates.contains(r[k]) by {
            if k < present_among(present, c).len() {
                let j = choose|j: int| 0 <= j < c.len() && c[j] == r[k];
                assert(candidates[j] == r[k]);
            } else {
                assert(candidates[candidates.len() - 1] == r[k]);
            }
        }
    }
}

proof fn lemma_single_sound(present: Seq<Seq<char>>, e: EcosystemType)
    ensures
        single_analysis(present, e) matches Ok(s) ==> {
            &&& s.ecosystem == e
            &&& has_lockfile(present, e)
            &&& recorded_manager(e, s.package_manager, s.install_command)
            &&& s.targets_to_delete == present_among(present, heavy_dirs(e))
        },
{
}

proof fn lemma_combine_sound(present: Seq<Seq<char>>, ecos: Seq<EcosystemType>)
    ensures
        combine(present, ecos) matches AnalysisModel::Ready(m) ==> sound_metadata(present, ecos, m),
        combine(present, ecos) != AnalysisModel::UnknownEcosystem,
    decreases ecos.len(),
{
    if ecos.len() == 0 {
        assert(empty_metadata().ecosystems =~= ecos);
    } else {
        let pre = ecos.drop_last();
        lemma_combine_sound(present, pre);
        lemma_single_sound(present, ecos.last());
        if let AnalysisModel::Ready(m0) = combine(present, pre) {
            if let Ok(s) = single_analysis(present, ecos.last()) {
                let m = add_single(m0, s);
                lemma_present_among(present, heavy_dirs(ecos.last()));
                assert(m.ecosystems =~= ecos);
                assert forall|i: int| 0 <= i < ecos.len() implies #[trigger] has_lockfile(present, ecos[i]) by {
                    if i < pre.len() {
                        assert(pre[i] == ecos[i]);
                    }
                }
                assert forall|i: int| 0 <= i < ecos.len() implies #[trigger] recorded_manager(ecos[i], m.package_managers[i], m.install_commands[i]) by {
                    if i < pre.len() {
                        assert(pre[i] == ecos[i]);
                        assert(m.package_managers[i] == m0.package_managers[i]);
                        assert(m.install_commands[i] == m0.install_commands[i]);
                    }
                }
                assert forall|k: int| 0 <= k < m.targets_to_delete.len() implies present.contains(#[trigger] m.targets_to_delete[k])
                    && heavy_dir_of(ecos, m.targets_to_delete[k]) by {
                    let t = m.targets_to_delete[k];
                    if k < m0.targets_to_delete.len() {
                        assert(t == m0.targets_to_delete[k]);
                        assert(heavy_dir_of(pre, t));
                        let i = choose|i: int| 0 <= i < pre.len() && #[trigger] heavy_dirs(pre[i]).contains(t);
                        assert(ecos[i] == pre[i]);
                    } else {
                        assert(t == s.targets_to_delete[k - m0.targets_to_delete.len()]);
                        assert(heavy_dirs(ecos[ecos.len() - 1]).contains(t));
                    }
                }
            }
        }
    }
}

/// Lockfile rule: a project is ready to hibernate only when every ecosystem that
/// it uses has its lockfile; then the ecosystems are exactly those whose
/// markers are present, each with the package manager and install command of
/// its lockfile, and only present heavy directories of those ecosystems are
/// proposed for deletion.
pub proof fn lemma_ready_projects_are_restorable(present: Seq<Seq<char>>)
    ensures
        project_analysis(present) matches AnalysisModel::Ready(m) ==> {
            &&& m.ecosystems.len() > 0
            &&& sound_metadata(present, detected_ecosystems(present), m)
        },
{
    lemma_combine_sound(present, detected_ecosystems(present));
}

/// A directory is of unknown ecosystem exactly when none of the marker files
/// `package.json`, `Cargo.toml`, `requirements.txt`, `pyproject.toml` is present.
pub proof fn lemma_unknown_ecosystem(present: Seq<Seq<char>>)
    ensures
        (project_analysis(present) == AnalysisModel::UnknownEcosystem) <==> (!present.contains("package.json"@)
            && !present.contains("Cargo.toml"@) && !present.contains("requirements.txt"@)
            && !present.contains("pyproject.toml"@)),
{
    let d = detected_ecosystems(present);
    lemma_combine_sound(present, d);
    if present.contains("package.json"@) || present.contains("Cargo.toml"@) || present.contains("requirements.txt"@)
        || present.contains("pyproject.toml"@) {
        assert(d.len() > 0);
    }
    if d.len() == 0 {
        assert(combine(present, d) == AnalysisModel::Ready(empty_metadata()));
    }
}

proof fn lemma_combine_ready_when_locked(present: Seq<Seq<char>>, ecos: Seq<EcosystemType>)
    requires
        forall|i: int| 0 <= i < ecos.len() ==> #[trigger] has_lockfile(present, ecos[i]),
    ensures
        combine(present, ecos) is Ready,
    decreases ecos.len(),
{
    if ecos.len() > 0 {
        let pre = ecos.drop_last();
        assert forall|i: int| 0 <= i < pre.len() implies #[trigger] has_lockfile(present, pre[i]) by {
            assert(pre[i] == ecos[i]);
        }
        lemma_combine_ready_when_locked(present, pre);
        assert(has_lockfile(present, ecos[ecos.len() - 1]));
    }
}

proof fn lemma_combine_entries(present: Seq<Seq<char>>, ecos: Seq<EcosystemType>)
    ensures
        combine(present, ecos) matches AnalysisModel::Ready(m) ==> {
            &&& m.ecosystems == ecos
            &&& m.package_managers.len() == ecos.len()
            &&& m.install_commands.len() == ecos.len()
            &&& forall|i: int| 0 <= i < ecos.len() ==> ((#[trigger] single_analysis(present, ecos[i])) matches Ok(s)
                && s.package_manager == m.package_managers[i] && s.install_command == m.install_commands[i])
        },
    decreases ecos.len(),
{
    if ecos.len() == 0 {
        assert(empty_metadata().ecosystems =~= ecos);
    } else {
        let pre = ecos.drop_last();
        lemma_combine_entries(present, pre);
        if let AnalysisModel::Ready(m0) = combine(present, pre) {
            if let Ok(s) = single_analysis(present, ecos.last()) {
                let m = add_single(m0, s);
                assert(m.ecosystems =~= ecos);
                assert forall|i: int| 0 <= i < ecos.len() implies (#[trigger] single_analysis(present, ecos[i])) matches Ok(t)
                    && t.package_manager == m.package_managers[i] && t.install_command == m.install_commands[i] by {
                    if i < pre.len() {
                        assert(pre[i] == ecos[i]);
                        assert(single_analysis(present, pre[i]) matches Ok(t) && t.package_manager == m0.package_managers[i]
                            && t.install_command == m0.install_commands[i]);
                    }
                }
            }
        }
    }
}

/// The converse of the lockfile rule: a project with at least one marker file
/// (`package.json`, `Cargo.toml`, `requirements.txt`, `pyproject.toml`) whose
/// every ecosystem has its lockfile is ready to hibernate. For Python, pinned
/// `requirements.txt` stands for a lockfile whether or not `pyproject.toml`
/// is there too. With the lockfile rule, a project is ready exactly when it
/// has a marker and every detected ecosystem has its lockfile.
pub proof fn lemma_locked_projects_are_ready(present: Seq<Seq<char>>)
    ensures
        (present.contains("package.json"@) || present.contains("Cargo.toml"@) || present.contains("requirements.txt"@)
            || present.contains("pyproject.toml"@))
            && (present.contains("package.json"@) ==> present.contains("pnpm-lock.yaml"@) || present.contains("yarn.lock"@)
                || present.contains("package-lock.json"@) || present.contains("bun.lockb"@))
            && (present.contains("Cargo.toml"@) ==> present.contains("Cargo.lock"@))
            && ((present.contains("requirements.txt"@) || present.contains("pyproject.toml"@)) ==> present.contains("poetry.lock"@)
                || present.contains("Pipfile.lock"@) || present.contains("requirements.txt"@))
            ==> project_analysis(present) is Ready,
        project_analysis(present) is Ready ==> forall|i: int| 0 <= i < detected_ecosystems(present).len()
            ==> #[trigger] has_lockfile(present, detected_ecosystems(present)[i]),
{
    let d = detected_ecosystems(present);
    lemma_combine_sound(present, d);
    if (present.contains("package.json"@) || present.contains("Cargo.toml"@) || present.contains("requirements.txt"@)
        || present.contains("pyproject.toml"@))
        && (present.contains("package.json"@) ==> present.contains("pnpm-lock.yaml"@) || present.contains("yarn.lock"@)
            || present.contains("package-lock.json"@) || present.contains("bun.lockb"@))
        && (present.contains("Cargo.toml"@) ==> present.contains("Cargo.lock"@))
        && ((present.contains("requirements.txt"@) || present.contains("pyproject.toml"@)) ==> present.contains("poetry.lock"@)
            || present.contains("Pipfile.lock"@) || present.contains("requirements.txt"@)) {
        assert forall|i: int| 0 <= i < d.len() implies #[trigger] has_lockfile(present, d[i]) by {
            let node: Seq<EcosystemType> = if present.contains("package.json"@) { seq![EcosystemType::Node] } else { seq![] };
            let rust: Seq<EcosystemType> = if present.contains("Cargo.toml"@) { seq![EcosystemType::Rust] } else { seq![] };
            assert(d[i] == EcosystemType::Node ==> present.contains("package.json"@));
            assert(d[i] == EcosystemType::Rust ==> present.contains("Cargo.toml"@));
            assert(d[i] == EcosystemType::Python ==> present.contains("requirements.txt"@) || present.contains("pyproject.toml"@));
        }
        lemma_combine_ready_when_locked(present, d);
        assert(d.len() > 0);
        lemma_combine_entries(present, d);
    }
}

/// The lockfile present decides the package manager and install command:
/// for Node the first of `pnpm-lock.yaml`, `yarn.lock`, `package-lock.json`,
/// `bun.lockb`; for Python `poetry.lock`, then `Pipfile.lock`, else pinned
/// `requirements.txt` with pip; Rust always uses cargo.
pub proof fn lemma_lockfile_decides_manager(present: Seq<Seq<char>>)
    ensures
        project_analysis(present) matches AnalysisModel::Ready(m) ==> forall|i: int| 0 <= i < m.ecosystems.len() ==> {
            &&& (#[trigger] m.ecosystems[i]) == EcosystemType::Python ==> if present.contains("poetry.lock"@) {
                m.package_managers[i] == "poetry"@ && m.install_commands[i] == "poetry install"@
            } else if present.contains("Pipfile.lock"@) {
                m.package_managers[i] == "pipenv"@ && m.install_commands[i] == "pipenv install"@
            } else {
                present.contains("requirements.txt"@) && m.package_managers[i] == "pip"@ && m.install_commands[i]
                    == "pip install -r requirements.txt"@
            }
            &&& m.ecosystems[i] == EcosystemType::Node ==> if present.contains("pnpm-lock.yaml"@) {
                m.package_managers[i] == "pnpm"@ && m.install_commands[i] == "pnpm install"@
            } else if present.contains("yarn.lock"@) {
                m.package_managers[i] == "yarn"@ && m.install_commands[i] == "yarn install"@
            } else if present.contains("package-lock.json"@) {
                m.package_managers[i] == "npm"@ && m.install_commands[i] == "npm ci"@
            } else {
                present.contains("bun.lockb"@) && m.package_managers[i] == "bun"@ && m.install_commands[i] == "bun install"@
            }
            &&& m.ecosystems[i] == EcosystemType::Rust ==> present.contains("Cargo.lock"@) && m.package_managers[i] == "cargo"@
                && m.install_commands[i] == "cargo fetch"@
        },
{
    let d = detected_ecosystems(present);
    lemma_combine_entries(present, d);
    if let AnalysisModel::Ready(m) = project_analysis(present) {
        assert(combine(present, d) == AnalysisModel::Ready(m));
        assert forall|i: int| 0 <= i < m.ecosystems.len() implies #[trigger] m.ecosystems[i] == d[i]
            && single_analysis(present, d[i]) is Ok by {}
    }
}

} // verus!
