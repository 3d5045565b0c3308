use vstd::prelude::*;

use crate::ecosystem::{
    detected_ecosystems, lemma_ready_projects_are_restorable, project_analysis, recorded_manager,
    AnalysisModel, EcosystemType,
};
use crate::text::{names_of, str_eq};

verus! {

/// Snapshots larger than this many bytes are refused unread.
pub const MAX_SNAPSHOT_BYTES: u64 = 1048576;

/// A program that rehydration runs: a whitelisted package manager found on
/// the search path, or the `pip` of a project's rebuilt virtual environment
/// (`<venv>/bin/pip`, or `<venv>\Scripts\pip` on Windows, inside the project).
#[derive(Debug)]
pub enum Program {
    Named(String),
    VenvPip(String),
}

pub enum ProgramModel {
    Named(Seq<char>),
    VenvPip(Seq<char>),
}

impl View for Program {
    type V = ProgramModel;

    open spec fn view(&self) -> ProgramModel {
        match self {
            Program::Named(s) => ProgramModel::Named(s@),
            Program::VenvPip(s) => ProgramModel::VenvPip(s@),
        }
    }
}

fn strings_of(items: &[&str]) -> (r: Vec<String>)
    ensures
        r@.len() == items@.len(),
        forall|i: int| 0 <= i < items@.len() ==> #[trigger] r@[i]@ == items@[i]@,
{
    let mut r: Vec<String> = Vec::new();
    let mut i: usize = 0;
    while i < items.len()
        invariant
            i <= items@.len(),
            r@.len() == i,
            forall|j: int| 0 <= j < i ==> #[trigger] r@[j]@ == items@[j]@,
        decreases items@.len() - i,
    {
        r.push(String::from_str(items[i]));
        i = i + 1;
    }
    r
}

/// One reinstall of a rehydration: a whitelisted command, or the rebuild of
/// a Python virtual environment followed by `pip install -r requirements.txt`.
#[derive(Debug)]
pub enum InstallStep {
    Command { bin: String, args: Vec<String> },
    PipVenv { venv: String },
}

pub enum StepModel {
    Command { bin: Seq<char>, args: Seq<Seq<char>> },
    PipVenv { venv: Seq<char> },
}

impl View for InstallStep {
    type V = StepModel;

    open spec fn view(&self) -> StepModel {
        match self {
            InstallStep::Command { bin, args } => StepModel::Command { bin: bin@, args: names_of(args@) },
            InstallStep::PipVenv { venv } => StepModel::PipVenv { venv: venv@ },
        }
    }
}

pub open spec fn steps_view(steps: Seq<InstallStep>) -> Seq<StepModel> {
    steps.map_values(|s: InstallStep| s@)
}

/// The whitelist: the only commands that rehydration runs for a package
/// manager other than `pip`.
pub open spec fn whitelisted_command(pm: Seq<char>) -> Option<StepModel> {
    if pm == "npm"@ {
        Some(StepModel::Command { bin: "npm"@, args: seq!["ci"@] })
    } else if pm == "yarn"@ {
        Some(StepModel::Command { bin: "yarn"@, args: seq!["install"@] })
    } else if pm == "pnpm"@ {
        Some(StepModel::Command { bin: "pnpm"@, args: seq!["install"@] })
    } else if pm == "bun"@ {
        Some(StepModel::Command { bin: "bun"@, args: seq!["install"@] })
    } else if pm == "cargo"@ {
        Some(StepModel::Command { bin: "cargo"@, args: seq!["fetch"@] })
    } else if pm == "poetry"@ {
        Some(StepModel::Command { bin: "poetry"@, args: seq!["install"@] })
    } else if pm == "pipenv"@ {
        Some(StepModel::Command { bin: "pipenv"@, args: seq!["install"@] })
    } else {
        None
    }
}

/// The first deleted path that names a virtual environment (`venv` or `.venv`).
pub open spec fn first_venv(deleted: Seq<Seq<char>>) -> Option<Seq<char>>
    decreases deleted.len(),
{
    if deleted.len() == 0 {
        None
    } else {
        match first_venv(deleted.drop_last()) {
            Some(v) => Some(v),
            None => if deleted.last() == "venv"@ || deleted.last() == ".venv"@ {
                Some(deleted.last())
            } else {
                None
            },
        }
    }
}

/// The virtual environment that a `pip` project is rebuilt in: the first one
/// recorded as deleted, else `venv`.
pub open spec fn spec_venv_name(deleted: Seq<Seq<char>>) -> Seq<char> {
    match first_venv(deleted) {
        Some(v) => v,
        None => "venv"@,
    }
}

/// The virtual environment that a `pip` project is rebuilt in.
pub fn venv_name(deleted: &Vec<String>) -> (v: String)
    ensures
        v@ == spec_venv_name(names_of(deleted@)),
{
    let mut i: usize = 0;
    proof {
        assert(names_of(deleted@).subrange(0, 0) =~= seq![]);
    }
    while i < deleted.len()
        invariant
            i <= deleted.len(),
            first_venv(names_of(deleted@).subrange(0, i as int)) is None,
        decreases deleted.len() - i,
    {
        proof {
            let s = names_of(deleted@).subrange(0, i + 1);
            assert(s.drop_last() =~= names_of(deleted@).subrange(0, i as int));
        }
        if str_eq(deleted[i].as_str(), "venv") || str_eq(deleted[i].as_str(), ".venv") {
            proof {
                lemma_first_venv_found(names_of(deleted@), i as int);
            }
            return deleted[i].clone();
        }
        i = i + 1;
    }
    proof {
        assert(names_of(deleted@).subrange(0, deleted@.len() as int) =~= names_of(deleted@));
    }
    String::from_str("venv")
}

proof fn lemma_first_venv_found(d: Seq<Seq<char>>, i: int)
    requires
        0 <= i < d.len(),
        first_venv(d.subrange(0, i)) is None,
        d[i] == "venv"@ || d[i] == ".venv"@,
    ensures
        first_venv(d) == Some(d[i]),
    decreases d.len(),
{
    if i + 1 < d.len() {
        assert(d.drop_last().subrange(0, i) =~= d.subrange(0, i));
        lemma_first_venv_found(d.drop_last(), i);
    } else {
        assert(d.drop_last() =~= d.subrange(0, i));
    }
}

/// The reinstall step for a recorded package manager, if it is a known one.
pub open spec fn step_for(pm: Seq<char>, deleted: Seq<Seq<char>>) -> Option<StepModel> {
    if pm == "pip"@ {
        Some(StepModel::PipVenv { venv: spec_venv_name(deleted) })
    } else {
        whitelisted_command(pm)
    }
}

/// The steps that rehydrate a snapshot; or, when a package manager is not on
/// the whitelist, the steps of the managers before the first such one, and that one.
pub open spec fn spec_plan(pms: Seq<Seq<char>>, deleted: Seq<Seq<char>>) -> Result<Seq<StepModel>, (Seq<StepModel>, Seq<char>)>
    decreases pms.len(),
{
    if pms.len() == 0 {
        Ok(seq![])
    } else {
        match spec_plan(pms.drop_last(), deleted) {
            Ok(steps) => match step_for(pms.last(), deleted) {
                Some(s) => Ok(steps.push(s)),
                None => Err((steps, pms.last())),
            },
            Err(p) => Err(p),
        }
    }
}

fn command_step(bin: &str, arg: &str) -> (s: InstallStep)
    ensures
        s@ == (StepModel::Command { bin: bin@, args: seq![arg@] }),
{
    let mut args: Vec<String> = Vec::new();
    args.push(String::from_str(arg));
    assert(names_of(args@) =~= seq![arg@]);
    InstallStep::Command { bin: String::from_str(bin), args }
}

fn whitelisted(pm: &str) -> (r: Option<InstallStep>)
    ensures
        match r {
            Some(s) => whitelisted_command(pm@) == Some(s@),
            None => whitelisted_command(pm@) is None,
        },
{
    if str_eq(pm, "npm") {
        Some(command_step("npm", "ci"))
    } else if str_eq(pm, "yarn") {
        Some(command_step("yarn", "install"))
    } else if str_eq(pm, "pnpm") {
        Some(command_step("pnpm", "install"))
    } else if str_eq(pm, "bun") {
        Some(command_step("bun", "install"))
    } else if str_eq(pm, "cargo") {
        Some(command_step("cargo", "fetch"))
    } else if str_eq(pm, "poetry") {
        Some(command_step("poetry", "install"))
    } else if str_eq(pm, "pipenv") {
        Some(command_step("pipenv", "install"))
    } else {
        None
    }
}

/// A plan refused at a package manager off the whitelist: the steps of the
/// managers before it, and the refused manager.
#[derive(Debug)]
pub struct PlanRefusal {
    pub accepted: Vec<InstallStep>,
    pub package_manager: String,
}

/// Rebuilds the commands that rehydrate a snapshot from its package managers
/// alone, never from the recorded command text: each must be on the
/// whitelist or be `pip`; at the first that is not, the plan is refused.
pub fn plan_rehydration(package_managers: &Vec<String>, deleted_paths: &Vec<String>) -> (r: Result<Vec<InstallStep>, PlanRefusal>)
    ensures
        match r {
            Ok(steps) => spec_plan(names_of(package_managers@), names_of(deleted_paths@)) == Ok::<Seq<StepModel>, (Seq<StepModel>, Seq<char>)>(steps_view(steps@)),
            Err(p) => spec_plan(names_of(package_managers@), names_of(deleted_paths@)) == Err::<Seq<StepModel>, (Seq<StepModel>, Seq<char>)>((steps_view(p.accepted@), p.package_manager@)),
        },
{
    let ghost pms = names_of(package_managers@);
    let ghost d = names_of(deleted_paths@);
    let mut steps: Vec<InstallStep> = Vec::new();
    let mut i: usize = 0;
    proof {
        assert(pms.subrange(0, 0) =~= seq![]);
        assert(steps_view(steps@) =~= seq![]);
    }
    while i < package_managers.len()
        invariant
            i <= package_managers.len(),
            pms == names_of(package_managers@),
            d == names_of(deleted_paths@),
            spec_plan(pms.subrange(0, i as int), d) == Ok::<Seq<StepModel>, (Seq<StepModel>, Seq<char>)>(steps_view(steps@)),
        decreases package_managers.len() - i,
    {
        let ghost before = steps_view(steps@);
        proof {
            let s = pms.subrange(0, i + 1);
            assert(s.drop_last() =~= pms.subrange(0, i as int));
            assert(s.last() == package_managers@[i as int]@);
        }
        let pm = package_managers[i].as_str();
        let step = if str_eq(pm, "pip") {
            InstallStep::PipVenv { venv: venv_name(deleted_paths) }
        } else {
            match whitelisted(pm) {
                Some(s) => s,
                None => {
                    proof {
                        lemma_plan_error_prefix(pms, d, i + 1);
                    }
                    return Err(PlanRefusal { accepted: steps, package_manager: package_managers[i].clone() });
                },
            }
        };
        steps.push(step);
        assert(steps_view(steps@) =~= before.push(step@));
        i = i + 1;
    }
    proof {
        assert(pms.subrange(0, package_managers@.len() as int) =~= pms);
    }
    Ok(steps)
}

proof fn lemma_plan_error_prefix(pms: Seq<Seq<char>>, d: Seq<Seq<char>>, n: int)
    requires
        0 <= n <= pms.len(),
        spec_plan(pms.subrange(0, n), d) is Err,
    ensures
        spec_plan(pms, d) == spec_plan(pms.subrange(0, n), d),
    decreases pms.len(),
{
    if n < pms.len() {
        assert(pms.drop_last().subrange(0, n) =~= pms.subrange(0, n));
        lemma_plan_error_prefix(pms.drop_last(), d, n);
    } else {
        assert(pms.subrange(0, n) =~= pms);
    }
}

/// The program name that is executed for a tool: on Windows the package
/// managers installed as `.cmd` scripts are run through those scripts directly.
pub open spec fn spec_safe_bin(bin: Seq<char>, windows: bool) -> Seq<char> {
    if windows && (bin == "npm"@ || bin == "yarn"@ || bin == "pnpm"@ || bin == "npx"@) {
        bin + ".cmd"@
    } else {
        bin
    }
}

/// The program name that is executed for a tool.
pub fn get_safe_bin(bin: &str, windows: bool) -> (r: String)
    ensures
        r@ == spec_safe_bin(bin@, windows),
{
    if windows && (str_eq(bin, "npm") || str_eq(bin, "yarn") || str_eq(bin, "pnpm") || str_eq(bin, "npx")) {
        String::from_str(bin).concat(".cmd")
    } else {
        String::from_str(bin)
    }
}

/// The Python interpreter named when a virtual environment is announced.
pub open spec fn shown_python(windows: bool) -> Seq<char> {
    if windows { "python"@ } else { "python3"@ }
}

/// The `pip` of a virtual environment, as the trust prompt shows it.
pub open spec fn shown_pip(venv: Seq<char>, windows: bool) -> Seq<char> {
    if windows { venv + "\\Scripts\\pip"@ } else { venv + "/bin/pip"@ }
}

pub open spec fn pip_install_args() -> Seq<Seq<char>> {
    seq!["install"@, "-r"@, "requirements.txt"@]
}

/// The command lines that the trust prompt shows for a step.
pub open spec fn step_lines(s: StepModel, windows: bool) -> Seq<Seq<Seq<char>>> {
    match s {
        StepModel::Command { bin, args } => seq![seq![bin] + args],
        StepModel::PipVenv { venv } => seq![
            seq![shown_python(windows), "-m"@, "venv"@, venv],
            seq![shown_pip(venv, windows)] + pip_install_args(),
        ],
    }
}

/// The command lines that the trust prompt shows, step by step.
pub open spec fn prompt_lines(steps: Seq<StepModel>, windows: bool) -> Seq<Seq<Seq<char>>>
    decreases steps.len(),
{
    if steps.len() == 0 {
        seq![]
    } else {
        prompt_lines(steps.drop_last(), windows) + step_lines(steps.last(), windows)
    }
}

pub open spec fn lines_view(lines: Seq<Vec<String>>) -> Seq<Seq<Seq<char>>> {
    lines.map_values(|l: Vec<String>| names_of(l@))
}

fn pip_args() -> (r: Vec<String>)
    ensures
        names_of(r@) == pip_install_args(),
{
    let r = strings_of(&["install", "-r", "requirements.txt"]);
    assert(names_of(r@) =~= pip_install_args());
    r
}

/// The command lines that the trust prompt shows before anything runs.
pub fn trust_prompt_lines(steps: &Vec<InstallStep>, windows: bool) -> (lines: Vec<Vec<String>>)
    ensures
        lines_view(lines@) == prompt_lines(steps_view(steps@), windows),
{
    let mut lines: Vec<Vec<String>> = Vec::new();
    let mut i: usize = 0;
    proof {
        assert(steps_view(steps@).subrange(0, 0) =~= seq![]);
        assert(lines_view(lines@) =~= seq![]);
    }
    while i < steps.len()
        invariant
            i <= steps.len(),
            lines_view(lines@) == prompt_lines(steps_view(steps@).subrange(0, i as int), windows),
        decreases steps.len() - i,
    {
        let ghost before = lines_view(lines@);
        proof {
            let s = steps_view(steps@).subrange(0, i + 1);
            assert(s.drop_last() =~= steps_view(steps@).subrange(0, i as int));
            assert(s.last() == steps@[i as int]@);
        }
        match &steps[i] {
            InstallStep::Command { bin, args } => {
                let mut line: Vec<String> = Vec::new();
                line.push(bin.clone());
                let mut j: usize = 0;
                while j < args.len()
                    invariant
                        j <= args.len(),
                        names_of(line@) =~= seq![bin@] + names_of(args@).subrange(0, j as int),
                    decreases args.len() - j,
                {
                    let ghost lb = names_of(line@);
                    line.push(args[j].clone());
                    assert(names_of(line@) =~= lb.push(args@[j as int]@));
                    j = j + 1;
                }
                assert(names_of(args@).subrange(0, args@.len() as int) =~= names_of(args@));
                lines.push(line);
                assert(lines_view(lines@) =~= before + step_lines(steps@[i as int]@, windows));
            },
            InstallStep::PipVenv { venv } => {
                let python = if windows { String::from_str("python") } else { String::from_str("python3") };
                let mut first: Vec<String> = Vec::new();
                first.push(python);
                first.push(String::from_str("-m"));
                first.push(String::from_str("venv"));
                first.push(venv.clone());
                let pip = if windows {
                    venv.clone().concat("\\Scripts\\pip")
                } else {
                    venv.clone().concat("/bin/pip")
                };
                let mut second: Vec<String> = Vec::new();
                second.push(pip);
                let mut rest = pip_args();
                second.append(&mut rest);
                assert(names_of(first@) =~= seq![shown_python(windows), "-m"@, "venv"@, venv@]);
                assert(names_of(second@) =~= seq![shown_pip(venv@, windows)] + pip_install_args());
                lines.push(first);
                lines.push(second);
                assert(lines_view(lines@) =~= before + step_lines(steps@[i as int]@, windows));
            },
        }
        i = i + 1;
    }
    proof {
        assert(steps_view(steps@).subrange(0, steps@.len() as int) =~= steps_view(steps@));
    }
    lines
}

/// Words joined by single spaces.
pub open spec fn joined(words: Seq<Seq<char>>) -> Seq<char>
    decreases words.len(),
{
    if words.len() == 0 {
        seq![]
    } else if words.len() == 1 {
        words[0]
    } else {
        joined(words.drop_last()) + " "@ + words.last()
    }
}

/// The command line that a step stands for, as hibernation records it.
pub open spec fn command_text(s: StepModel) -> Seq<char> {
    match s {
        StepModel::Command { bin, args } => joined(seq![bin] + args),
        StepModel::PipVenv { .. } => joined(seq!["pip"@] + pip_install_args()),
    }
}

proof fn lemma_plan_when_all_known(pms: Seq<Seq<char>>, d: Seq<Seq<char>>)
    requires
        forall|i: int| 0 <= i < pms.len() ==> #[trigger] step_for(pms[i], d) is Some,
    ensures
        spec_plan(pms, d) is Ok,
        spec_plan(pms, d) matches Ok(steps) ==> steps.len() == pms.len() && forall|i: int|
            0 <= i < pms.len() ==> Some(#[trigger] steps[i]) == step_for(pms[i], d),
    decreases pms.len(),
{
    if pms.len() > 0 {
        let pre = pms.drop_last();
        assert forall|i: int| 0 <= i < pre.len() implies #[trigger] step_for(pre[i], d) is Some by {
            assert(pre[i] == pms[i]);
        }
        lemma_plan_when_all_known(pre, d);
        assert(step_for(pms[pms.len() - 1], d) is Some);
        let steps = spec_plan(pms, d)->Ok_0;
        let psteps = spec_plan(pre, d)->Ok_0;
        assert forall|i: int| 0 <= i < pms.len() implies Some(#[trigger] steps[i]) == step_for(pms[i], d) by {
            if i < pre.len() {
                assert(steps[i] == psteps[i]);
                assert(pre[i] == pms[i]);
            }
        }
    }
}

proof fn lemma_recorded_manager_runs_recorded_command(e: EcosystemType, pm: Seq<char>, cmd: Seq<char>, d: Seq<Seq<char>>)
    requires
        recorded_manager(e, pm, cmd),
    ensures
        step_for(pm, d) matches Some(s) && command_text(s) == cmd,
{
    reveal_strlit("npm");
    reveal_strlit("yarn");
    reveal_strlit("pnpm");
    reveal_strlit("bun");
    reveal_strlit("cargo");
    reveal_strlit("poetry");
    reveal_strlit("pipenv");
    reveal_strlit("pip");
    reveal_strlit("ci");
    reveal_strlit("install");
    reveal_strlit("fetch");
    reveal_strlit(" ");
    reveal_strlit("-r");
    reveal_strlit("requirements.txt");
    reveal_strlit("npm ci");
    reveal_strlit("yarn install");
    reveal_strlit("pnpm install");
    reveal_strlit("bun install");
    reveal_strlit("cargo fetch");
    reveal_strlit("poetry install");
    reveal_strlit("pipenv install");
    reveal_strlit("pip install -r requirements.txt");
    reveal_with_fuel(joined, 5);
    assert("npm"@ != "yarn"@) by { assert("npm"@.len() != "yarn"@.len()); }
    assert("npm"@ != "pnpm"@) by { assert("npm"@.len() != "pnpm"@.len()); }
    assert("npm"@ != "bun"@) by { assert("npm"@[0] != "bun"@[0]); }
    assert("npm"@ != "cargo"@) by { assert("npm"@.len() != "cargo"@.len()); }
    assert("npm"@ != "poetry"@) by { assert("npm"@.len() != "poetry"@.len()); }
    assert("npm"@ != "pipenv"@) by { assert("npm"@.len() != "pipenv"@.len()); }
    assert("npm"@ != "pip"@) by { assert("npm"@[0] != "pip"@[0]); }
    assert("yarn"@ != "pnpm"@) by { assert("yarn"@[0] != "pnpm"@[0]); }
    assert("yarn"@ != "bun"@) by { assert("yarn"@.len() != "bun"@.len()); }
    assert("yarn"@ != "cargo"@) by { assert("yarn"@.len() != "cargo"@.len()); }
    assert("yarn"@ != "poetry"@) by { assert("yarn"@.len() != "poetry"@.len()); }
    assert("yarn"@ != "pipenv"@) by { assert("yarn"@.len() != "pipenv"@.len()); }
    assert("yarn"@ != "pip"@) by { assert("yarn"@.len() != "pip"@.len()); }
    assert("pnpm"@ != "bun"@) by { assert("pnpm"@.len() != "bun"@.len()); }
    assert("pnpm"@ != "cargo"@) by { assert("pnpm"@.len() != "cargo"@.len()); }
    assert("pnpm"@ != "poetry"@) by { assert("pnpm"@.len() != "poetry"@.len()); }
    assert("pnpm"@ != "pipenv"@) by { assert("pnpm"@.len() != "pipenv"@.len()); }
    assert("pnpm"@ != "pip"@) by { assert("pnpm"@.len() != "pip"@.len()); }
    assert("bun"@ != "cargo"@) by { assert("bun"@.len() != "cargo"@.len()); }
    assert("bun"@ != "poetry"@) by { assert("bun"@.len() != "poetry"@.len()); }
    assert("bun"@ != "pipenv"@) by { assert("bun"@.len() != "pipenv"@.len()); }
    assert("bun"@ != "pip"@) by { assert("bun"@[0] != "pip"@[0]); }
    assert("cargo"@ != "poetry"@) by { assert("cargo"@.len() != "poetry"@.len()); }
    assert("cargo"@ != "pipenv"@) by { assert("cargo"@.len() != "pipenv"@.len()); }
    assert("cargo"@ != "pip"@) by { assert("cargo"@.len() != "pip"@.len()); }
    assert("poetry"@ != "pipenv"@) by { assert("poetry"@[1] != "pipenv"@[1]); }
    assert("poetry"@ != "pip"@) by { assert("poetry"@.len() != "pip"@.len()); }
    assert("pipenv"@ != "pip"@) by { assert("pipenv"@.len() != "pip"@.len()); }
    assert("npm ci"@ =~= "npm"@ + " "@ + "ci"@);
    assert("yarn install"@ =~= "yarn"@ + " "@ + "install"@);
    assert("pnpm install"@ =~= "pnpm"@ + " "@ + "install"@);
    assert("bun install"@ =~= "bun"@ + " "@ + "install"@);
    assert("cargo fetch"@ =~= "cargo"@ + " "@ + "fetch"@);
    assert("poetry install"@ =~= "poetry"@ + " "@ + "install"@);
    assert("pipenv install"@ =~= "pipenv"@ + " "@ + "install"@);
    assert("pip install -r requirements.txt"@ =~= "pip"@ + " "@ + "install"@ + " "@ + "-r"@ + " "@ + "requirements.txt"@);
    let s = step_for(pm, d)->Some_0;
    if pm == "pip"@ {
        let w = seq!["pip"@] + pip_install_args();
        let w3 = seq!["pip"@, "install"@, "-r"@];
        let w2 = seq!["pip"@, "install"@];
        let w1 = seq!["pip"@];
        assert(w.drop_last() =~= w3);
        assert(w3.drop_last() =~= w2);
        assert(w2.drop_last() =~= w1);
        assert(joined(w1) == "pip"@);
        assert(joined(w2) == "pip"@ + " "@ + "install"@);
        assert(joined(w3) == "pip"@ + " "@ + "install"@ + " "@ + "-r"@);
        assert(joined(w) == "pip"@ + " "@ + "install"@ + " "@ + "-r"@ + " "@ + "requirements.txt"@);
        assert(cmd == "pip install -r requirements.txt"@);
    } else {
        if let StepModel::Command { bin, args } = s {
            let w = seq![bin] + args;
            assert(w.drop_last() =~= seq![bin]);
            assert(joined(w) == bin + " "@ + args[0]);
            if pm == "npm"@ {
                assert(cmd == "npm ci"@);
            } else if pm == "yarn"@ {
                assert(cmd == "yarn install"@);
            } else if pm == "pnpm"@ {
                assert(cmd == "pnpm install"@);
            } else if pm == "bun"@ {
                assert(cmd == "bun install"@);
            } else if pm == "cargo"@ {
                assert(cmd == "cargo fetch"@);
            } else if pm == "poetry"@ {
                assert(cmd == "poetry install"@);
            } else {
                assert(cmd == "pipenv install"@);
            }
        }
    }
}

/// Round trip: a project that analysis finds ready to hibernate is always
/// rehydrated. Each package manager recorded in its snapshot is accepted, and
/// the command rebuilt for it is the install command that was recorded beside it.
pub proof fn lemma_snapshot_round_trip(present: Seq<Seq<char>>, deleted: Seq<Seq<char>>)
    ensures
        project_analysis(present) matches AnalysisModel::Ready(m) ==> {
            &&& spec_plan(m.package_managers, deleted) is Ok
            &&& spec_plan(m.package_managers, deleted) matches Ok(steps) && steps.len() == m.install_commands.len()
                && forall|i: int| 0 <= i < steps.len() ==> command_text(#[trigger] steps[i]) == m.install_commands[i]
        },
{
    lemma_ready_projects_are_restorable(present);
    if let AnalysisModel::Ready(m) = project_analysis(present) {
        let ecos = detected_ecosystems(present);
        let pms = m.package_managers;
        assert forall|i: int| 0 <= i < pms.len() implies #[trigger] step_for(pms[i], deleted) is Some by {
            assert(recorded_manager(ecos[i], pms[i], m.install_commands[i]));
            lemma_recorded_manager_runs_recorded_command(ecos[i], pms[i], m.install_commands[i], deleted);
        }
        lemma_plan_when_all_known(pms, deleted);
        let steps = spec_plan(pms, deleted)->Ok_0;
        assert forall|i: int| 0 <= i < steps.len() implies command_text(#[trigger] steps[i]) == m.install_commands[i] by {
            assert(recorded_manager(ecos[i], pms[i], m.install_commands[i]));
            lemma_recorded_manager_runs_recorded_command(ecos[i], pms[i], m.install_commands[i], deleted);
            assert(Some(steps[i]) == step_for(pms[i], deleted));
        }
    }
}

/// Only the package managers that Windows installs as `.cmd` scripts (npm,
/// yarn, pnpm, npx) are renamed, and only on Windows, where `.cmd` is
/// appended; every other program runs under its own name on every platform.
/// So of the whitelisted reinstall commands, those of bun, cargo, poetry and
/// pipenv always run their own binary.
pub proof fn lemma_safe_bin_renames_only_cmd_scripts(bin: Seq<char>, windows: bool)
    ensures
        !windows ==> spec_safe_bin(bin, windows) == bin,
        !(bin == "npm"@ || bin == "yarn"@ || bin == "pnpm"@ || bin == "npx"@) ==> spec_safe_bin(bin, windows) == bin,
        windows && (bin == "npm"@ || bin == "yarn"@ || bin == "pnpm"@ || bin == "npx"@) ==> spec_safe_bin(bin, windows)
            == bin + ".cmd"@,
        forall|pm: Seq<char>| #[trigger] whitelisted_command(pm) matches Some(StepModel::Command { bin: b, .. }) ==> (
            spec_safe_bin(b, windows) == if windows && (pm == "npm"@ || pm == "yarn"@ || pm == "pnpm"@) {
                pm + ".cmd"@
            } else {
                pm
            }),
{
    reveal_strlit("npm");
    reveal_strlit("yarn");
    reveal_strlit("pnpm");
    reveal_strlit("npx");
    reveal_strlit("bun");
    reveal_strlit("cargo");
    reveal_strlit("poetry");
    reveal_strlit("pipenv");
    let others = seq!["bun"@, "cargo"@, "poetry"@, "pipenv"@];
    let scripts = seq!["npm"@, "yarn"@, "pnpm"@, "npx"@];
    assert forall|x: int, y: int| 0 <= x < 4 && 0 <= y < 4 implies #[trigger] others[x] != #[trigger] scripts[y] by {
        if others[x].len() == scripts[y].len() {
            assert(others[x][0] != scripts[y][0]);
        }
    }
    assert(others[0] != scripts[0] && others[0] != scripts[1] && others[0] != scripts[2] && others[0] != scripts[3]);
    assert(others[1] != scripts[0] && others[1] != scripts[1] && others[1] != scripts[2] && others[1] != scripts[3]);
    assert(others[2] != scripts[0] && others[2] != scripts[1] && others[2] != scripts[2] && others[2] != scripts[3]);
    assert(others[3] != scripts[0] && others[3] != scripts[1] && others[3] != scripts[2] && others[3] != scripts[3]);
}

} // verus!
