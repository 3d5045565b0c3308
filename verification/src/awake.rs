use vstd::prelude::*;

use crate::hibernate::DehydrateSnapshot;
use crate::prompt::{is_consent, lowercased, spec_consent};
use crate::text::trimmed;
use crate::rehydrate::{
    get_safe_bin, lines_view, pip_install_args, plan_rehydration, prompt_lines, spec_plan,
    spec_safe_bin, steps_view, trust_prompt_lines, whitelisted_command, InstallStep, Program, ProgramModel, StepModel,
    MAX_SNAPSHOT_BYTES,
};
use crate::text::{clone_strings, names_of};

verus! {

/// Why a project could not be rehydrated.
#[derive(Debug)]
pub enum RehydrateError {
    /// The project holds no snapshot: it is not hibernated.
    NotHibernated,
    /// The snapshot is larger than `MAX_SNAPSHOT_BYTES`.
    SnapshotTooLarge,
    /// The snapshot names a package manager that is not on the whitelist.
    UnrecognizedPackageManager(String),
    /// Standard input is not a terminal, so nobody can consent.
    NonInteractive,
    /// The user did not consent.
    Aborted,
    /// No Python interpreter could be started.
    MissingPython,
    /// The virtual environment could not be created.
    VenvFailed,
    /// Starting the interpreter failed for another reason.
    VenvSpawnFailed { python: String, detail: String },
    /// A tool does not answer `--version`.
    MissingDependency(Program),
    /// An install command exited with an error.
    InstallFailed(Program),
    /// An install command could not be started.
    SpawnFailed { program: Program, detail: String },
}

pub enum ErrorModel {
    NotHibernated,
    SnapshotTooLarge,
    UnrecognizedPackageManager(Seq<char>),
    NonInteractive,
    Aborted,
    MissingPython,
    VenvFailed,
    VenvSpawnFailed { python: Seq<char>, detail: Seq<char> },
    MissingDependency(ProgramModel),
    InstallFailed(ProgramModel),
    SpawnFailed { program: ProgramModel, detail: Seq<char> },
}

impl View for RehydrateError {
    type V = ErrorModel;

    open spec fn view(&self) -> ErrorModel {
        match self {
            RehydrateError::NotHibernated => ErrorModel::NotHibernated,
            RehydrateError::SnapshotTooLarge => ErrorModel::SnapshotTooLarge,
            RehydrateError::UnrecognizedPackageManager(p) => ErrorModel::UnrecognizedPackageManager(p@),
            RehydrateError::NonInteractive => ErrorModel::NonInteractive,
            RehydrateError::Aborted => ErrorModel::Aborted,
            RehydrateError::MissingPython => ErrorModel::MissingPython,
            RehydrateError::VenvFailed => ErrorModel::VenvFailed,
            RehydrateError::VenvSpawnFailed { python, detail } => ErrorModel::VenvSpawnFailed { python: python@, detail: detail@ },
            RehydrateError::MissingDependency(p) => ErrorModel::MissingDependency(p@),
            RehydrateError::InstallFailed(p) => ErrorModel::InstallFailed(p@),
            RehydrateError::SpawnFailed { program, detail } => ErrorModel::SpawnFailed { program: program@, detail: detail@ },
        }
    }
}

/// How an attempt to create a virtual environment ended.
#[derive(Debug)]
pub enum VenvOutcome {
    Created,
    Failed,
    PythonNotFound,
    SpawnError(String),
}

/// How an install command ended.
#[derive(Debug)]
pub enum InstallOutcome {
    Succeeded,
    Failed,
    SpawnError(String),
}

/// What the outside world reports back to the rehydration.
#[derive(Debug)]
pub enum AwakeEvent {
    /// Whether the project holds a snapshot file.
    SnapshotFound(bool),
    /// The snapshot file's length in bytes.
    SnapshotSize(u64),
    /// The snapshot, read and parsed.
    SnapshotRead(DehydrateSnapshot),
    /// Whether standard input is a terminal.
    Interactive(bool),
    /// The line typed at the trust prompt.
    Answer(String),
    /// The previous action was carried out.
    Proceed,
    /// Whether `python3 --version` could be run.
    Python3Available(bool),
    VenvCreated(VenvOutcome),
    /// Whether the tool answered `--version` successfully.
    ToolAvailable(bool),
    Installed(InstallOutcome),
}

pub enum VenvOutcomeModel {
    Created,
    Failed,
    PythonNotFound,
    SpawnError(Seq<char>),
}

pub enum InstallOutcomeModel {
    Succeeded,
    Failed,
    SpawnError(Seq<char>),
}

pub enum EventModel {
    SnapshotFound(bool),
    SnapshotSize(u64),
    /// What rehydration reads of the snapshot: its ecosystems, package managers and deleted paths.
    SnapshotRead { ecosystems: Seq<Seq<char>>, package_managers: Seq<Seq<char>>, deleted_paths: Seq<Seq<char>> },
    Interactive(bool),
    Answer(Seq<char>),
    Proceed,
    Python3Available(bool),
    VenvCreated(VenvOutcomeModel),
    ToolAvailable(bool),
    Installed(InstallOutcomeModel),
}

impl View for AwakeEvent {
    type V = EventModel;

    open spec fn view(&self) -> EventModel {
        match self {
            AwakeEvent::SnapshotFound(b) => EventModel::SnapshotFound(*b),
            AwakeEvent::SnapshotSize(n) => EventModel::SnapshotSize(*n),
            AwakeEvent::SnapshotRead(s) => EventModel::SnapshotRead {
                ecosystems: names_of(s.ecosystems@),
                package_managers: names_of(s.package_managers@),
                deleted_paths: names_of(s.deleted_paths@),
            },
            AwakeEvent::Interactive(b) => EventModel::Interactive(*b),
            AwakeEvent::Answer(a) => EventModel::Answer(a@),
            AwakeEvent::Proceed => EventModel::Proceed,
            AwakeEvent::Python3Available(b) => EventModel::Python3Available(*b),
            AwakeEvent::VenvCreated(o) => EventModel::VenvCreated(
                match o {
                    VenvOutcome::Created => VenvOutcomeModel::Created,
                    VenvOutcome::Failed => VenvOutcomeModel::Failed,
                    VenvOutcome::PythonNotFound => VenvOutcomeModel::PythonNotFound,
                    VenvOutcome::SpawnError(d) => VenvOutcomeModel::SpawnError(d@),
                },
            ),
            AwakeEvent::ToolAvailable(b) => EventModel::ToolAvailable(*b),
            AwakeEvent::Installed(o) => EventModel::Installed(
                match o {
                    InstallOutcome::Succeeded => InstallOutcomeModel::Succeeded,
                    InstallOutcome::Failed => InstallOutcomeModel::Failed,
                    InstallOutcome::SpawnError(d) => InstallOutcomeModel::SpawnError(d@),
                },
            ),
        }
    }
}

/// What the rehydration asks the outside world to do next.
#[derive(Debug)]
pub enum AwakeAction {
    /// Check whether the project holds a snapshot file.
    LocateSnapshot,
    /// Report the snapshot file's length.
    MeasureSnapshot,
    /// Read and parse the snapshot.
    ReadSnapshot,
    /// Show the command lines of the plan (up to a refused package manager).
    ShowPlan(Vec<Vec<String>>),
    /// Report whether standard input is a terminal.
    CheckTerminal,
    /// Ask the user to trust the project, and report the answer.
    AskConsent,
    /// Announce that rehydration of these ecosystems begins.
    Announce(Vec<String>),
    /// Announce the rebuild of a virtual environment.
    RebuildVenv(String),
    /// Check whether `python3` can be run.
    ProbePython3,
    /// Create the virtual environment `venv` with `python -m venv venv`.
    CreateVenv { python: String, venv: String },
    /// Run `run --version` in the project directory.
    CheckTool { run: Program, shown: Program },
    /// Run `run args...` in the project directory.
    Install { run: Program, shown: Program, args: Vec<String> },
    /// Every step succeeded: delete the snapshot file.
    RemoveSnapshot,
    /// Stop with this error.
    Fail(RehydrateError),
}

pub enum ActionModel {
    LocateSnapshot,
    MeasureSnapshot,
    ReadSnapshot,
    ShowPlan(Seq<Seq<Seq<char>>>),
    CheckTerminal,
    AskConsent,
    Announce(Seq<Seq<char>>),
    RebuildVenv(Seq<char>),
    ProbePython3,
    CreateVenv { python: Seq<char>, venv: Seq<char> },
    CheckTool { run: ProgramModel, shown: ProgramModel },
    Install { run: ProgramModel, shown: ProgramModel, args: Seq<Seq<char>> },
    RemoveSnapshot,
    Fail(ErrorModel),
}

impl View for AwakeAction {
    type V = ActionModel;

    open spec fn view(&self) -> ActionModel {
        match self {
            AwakeAction::LocateSnapshot => ActionModel::LocateSnapshot,
            AwakeAction::MeasureSnapshot => ActionModel::MeasureSnapshot,
            AwakeAction::ReadSnapshot => ActionModel::ReadSnapshot,
            AwakeAction::ShowPlan(l) => ActionModel::ShowPlan(lines_view(l@)),
            AwakeAction::CheckTerminal => ActionModel::CheckTerminal,
            AwakeAction::AskConsent => ActionModel::AskConsent,
            AwakeAction::Announce(e) => ActionModel::Announce(names_of(e@)),
            AwakeAction::RebuildVenv(v) => ActionModel::RebuildVenv(v@),
            AwakeAction::ProbePython3 => ActionModel::ProbePython3,
            AwakeAction::CreateVenv { python, venv } => ActionModel::CreateVenv { python: python@, venv: venv@ },
            AwakeAction::CheckTool { run, shown } => ActionModel::CheckTool { run: run@, shown: shown@ },
            AwakeAction::Install { run, shown, args } => ActionModel::Install { run: run@, shown: shown@, args: names_of(args@) },
            AwakeAction::RemoveSnapshot => ActionModel::RemoveSnapshot,
            AwakeAction::Fail(e) => ActionModel::Fail(e@),
        }
    }
}

/// Where a step of the reinstall stands.
#[derive(Debug)]
pub enum Stage {
    /// The virtual environment's rebuild was announced.
    VenvAnnounced { venv: String },
    /// Waiting to learn whether `python3` runs.
    Probing { venv: String },
    /// Waiting for the virtual environment.
    CreatingVenv { python: String, venv: String },
    /// Waiting for the tool's `--version`.
    CheckingTool { run: Program, shown: Program, args: Vec<String> },
    /// Waiting for the install command.
    Installing { shown: Program },
}

pub enum StageModel {
    VenvAnnounced { venv: Seq<char> },
    Probing { venv: Seq<char> },
    CreatingVenv { python: Seq<char>, venv: Seq<char> },
    CheckingTool { run: ProgramModel, shown: ProgramModel, args: Seq<Seq<char>> },
    Installing { shown: ProgramModel },
}

impl View for Stage {
    type V = StageModel;

    open spec fn view(&self) -> StageModel {
        match self {
            Stage::VenvAnnounced { venv } => StageModel::VenvAnnounced { venv: venv@ },
            Stage::Probing { venv } => StageModel::Probing { venv: venv@ },
            Stage::CreatingVenv { python, venv } => StageModel::CreatingVenv { python: python@, venv: venv@ },
            Stage::CheckingTool { run, shown, args } => StageModel::CheckingTool { run: run@, shown: shown@, args: names_of(args@) },
            Stage::Installing { shown } => StageModel::Installing { shown: shown@ },
        }
    }
}

/// Where a rehydration stands; the name of each phase says what it waits for.
#[derive(Debug)]
pub enum AwakePhase {
    Locating,
    Measuring,
    Reading,
    /// Waiting for the plan to be shown.
    Showing { steps: Vec<InstallStep>, ecosystems: Vec<String> },
    /// Waiting for the plan before a refused package manager to be shown.
    Refusing { package_manager: String },
    /// Waiting to learn whether input is interactive.
    Confirming { steps: Vec<InstallStep>, ecosystems: Vec<String> },
    /// Waiting for the user's answer.
    Consenting { steps: Vec<InstallStep>, ecosystems: Vec<String> },
    /// Consent was given and rehydration announced.
    Announcing { steps: Vec<InstallStep> },
    /// Working on step `index` of the plan.
    Working { steps: Vec<InstallStep>, index: usize, stage: Stage },
    Finished,
}

pub enum PhaseModel {
    Locating,
    Measuring,
    Reading,
    Showing { steps: Seq<StepModel>, ecosystems: Seq<Seq<char>> },
    Refusing { package_manager: Seq<char> },
    Confirming { steps: Seq<StepModel>, ecosystems: Seq<Seq<char>> },
    Consenting { steps: Seq<StepModel>, ecosystems: Seq<Seq<char>> },
    Announcing { steps: Seq<StepModel> },
    Working { steps: Seq<StepModel>, index: int, stage: StageModel },
    Finished,
}

impl View for AwakePhase {
    type V = PhaseModel;

    open spec fn view(&self) -> PhaseModel {
        match self {
            AwakePhase::Locating => PhaseModel::Locating,
            AwakePhase::Measuring => PhaseModel::Measuring,
            AwakePhase::Reading => PhaseModel::Reading,
            AwakePhase::Showing { steps, ecosystems } => PhaseModel::Showing { steps: steps_view(steps@), ecosystems: names_of(ecosystems@) },
            AwakePhase::Refusing { package_manager } => PhaseModel::Refusing { package_manager: package_manager@ },
            AwakePhase::Confirming { steps, ecosystems } => PhaseModel::Confirming { steps: steps_view(steps@), ecosystems: names_of(ecosystems@) },
            AwakePhase::Consenting { steps, ecosystems } => PhaseModel::Consenting { steps: steps_view(steps@), ecosystems: names_of(ecosystems@) },
            AwakePhase::Announcing { steps } => PhaseModel::Announcing { steps: steps_view(steps@) },
            AwakePhase::Working { steps, index, stage } => PhaseModel::Working { steps: steps_view(steps@), index: *index as int, stage: stage@ },
            AwakePhase::Finished => PhaseModel::Finished,
        }
    }
}

/// The decisions of `dehydrate awake`: it reads a project's snapshot, shows
/// what would run, asks for consent, and runs each whitelisted step in turn,
/// stopping at the first failure.
pub struct AwakeMachine {
    windows: bool,
    phase: AwakePhase,
}

pub struct AwakeModel {
    pub windows: bool,
    pub phase: PhaseModel,
}

impl View for AwakeMachine {
    type V = AwakeModel;

    closed spec fn view(&self) -> AwakeModel {
        AwakeModel { windows: self.windows, phase: self.phase@ }
    }
}

/// The phase and action with which step `index` of the plan begins; past the
/// last step, the snapshot is removed.
pub open spec fn enter_step(steps: Seq<StepModel>, index: int, windows: bool) -> (PhaseModel, ActionModel) {
    if index < 0 || index >= steps.len() {
        (PhaseModel::Finished, ActionModel::RemoveSnapshot)
    } else {
        match steps[index] {
            StepModel::Command { bin, args } => {
                let run = ProgramModel::Named(spec_safe_bin(bin, windows));
                let shown = ProgramModel::Named(bin);
                (
                    PhaseModel::Working { steps, index, stage: StageModel::CheckingTool { run, shown, args } },
                    ActionModel::CheckTool { run, shown },
                )
            },
            StepModel::PipVenv { venv } => (
                PhaseModel::Working { steps, index, stage: StageModel::VenvAnnounced { venv } },
                ActionModel::RebuildVenv(venv),
            ),
        }
    }
}

pub open spec fn finish(e: ErrorModel) -> (PhaseModel, ActionModel) {
    (PhaseModel::Finished, ActionModel::Fail(e))
}

/// The phase and action that follow a phase on an event.
pub open spec fn awake_next(phase: PhaseModel, e: EventModel, windows: bool) -> (PhaseModel, ActionModel) {
    match (phase, e) {
        (PhaseModel::Locating, EventModel::SnapshotFound(found)) => if found {
            (PhaseModel::Measuring, ActionModel::MeasureSnapshot)
        } else {
            finish(ErrorModel::NotHibernated)
        },
        (PhaseModel::Measuring, EventModel::SnapshotSize(n)) => if n > MAX_SNAPSHOT_BYTES {
            finish(ErrorModel::SnapshotTooLarge)
        } else {
            (PhaseModel::Reading, ActionModel::ReadSnapshot)
        },
        (PhaseModel::Reading, EventModel::SnapshotRead { ecosystems, package_managers, deleted_paths }) => match spec_plan(package_managers, deleted_paths) {
            Ok(steps) => (PhaseModel::Showing { steps, ecosystems }, ActionModel::ShowPlan(prompt_lines(steps, windows))),
            Err((accepted, pm)) => (PhaseModel::Refusing { package_manager: pm }, ActionModel::ShowPlan(prompt_lines(accepted, windows))),
        },
        (PhaseModel::Showing { steps, ecosystems }, EventModel::Proceed) => (PhaseModel::Confirming { steps, ecosystems }, ActionModel::CheckTerminal),
        (PhaseModel::Refusing { package_manager }, EventModel::Proceed) => finish(ErrorModel::UnrecognizedPackageManager(package_manager)),
        (PhaseModel::Confirming { steps, ecosystems }, EventModel::Interactive(tty)) => if tty {
            (PhaseModel::Consenting { steps, ecosystems }, ActionModel::AskConsent)
        } else {
            finish(ErrorModel::NonInteractive)
        },
        (PhaseModel::Consenting { steps, ecosystems }, EventModel::Answer(a)) => if spec_consent(trimmed(a), lowercased(trimmed(a))) {
            (PhaseModel::Announcing { steps }, ActionModel::Announce(ecosystems))
        } else {
            finish(ErrorModel::Aborted)
        },
        (PhaseModel::Announcing { steps }, EventModel::Proceed) => enter_step(steps, 0, windows),
        (PhaseModel::Working { steps, index, stage }, e) => match (stage, e) {
            (StageModel::VenvAnnounced { venv }, EventModel::Proceed) => if windows {
                (
                    PhaseModel::Working { steps, index, stage: StageModel::CreatingVenv { python: "python"@, venv } },
                    ActionModel::CreateVenv { python: "python"@, venv },
                )
            } else {
                (PhaseModel::Working { steps, index, stage: StageModel::Probing { venv } }, ActionModel::ProbePython3)
            },
            (StageModel::Probing { venv }, EventModel::Python3Available(ok)) => {
                let python = if ok { "python3"@ } else { "python"@ };
                (
                    PhaseModel::Working { steps, index, stage: StageModel::CreatingVenv { python, venv } },
                    ActionModel::CreateVenv { python, venv },
                )
            },
            (StageModel::CreatingVenv { python, venv }, EventModel::VenvCreated(o)) => match o {
                VenvOutcomeModel::Created => {
                    let p = ProgramModel::VenvPip(venv);
                    (
                        PhaseModel::Working { steps, index, stage: StageModel::CheckingTool { run: p, shown: p, args: pip_install_args() } },
                        ActionModel::CheckTool { run: p, shown: p },
                    )
                },
                VenvOutcomeModel::Failed => finish(ErrorModel::VenvFailed),
                VenvOutcomeModel::PythonNotFound => finish(ErrorModel::MissingPython),
                VenvOutcomeModel::SpawnError(d) => finish(ErrorModel::VenvSpawnFailed { python, detail: d }),
            },
            (StageModel::CheckingTool { run, shown, args }, EventModel::ToolAvailable(ok)) => if ok {
                (
                    PhaseModel::Working { steps, index, stage: StageModel::Installing { shown } },
                    ActionModel::Install { run, shown, args },
                )
            } else {
                finish(ErrorModel::MissingDependency(shown))
            },
            (StageModel::Installing { shown }, EventModel::Installed(o)) => match o {
                InstallOutcomeModel::Succeeded => enter_step(steps, index + 1, windows),
                InstallOutcomeModel::Failed => finish(ErrorModel::InstallFailed(shown)),
                InstallOutcomeModel::SpawnError(d) => finish(ErrorModel::SpawnFailed { program: shown, detail: d }),
            },
            _ => finish(ErrorModel::Aborted),
        },
        _ => finish(ErrorModel::Aborted),
    }
}

/// Whether a phase waits for this kind of event.
pub open spec fn awake_accepts(phase: PhaseModel, e: EventModel) -> bool {
    match (phase, e) {
        (PhaseModel::Locating, EventModel::SnapshotFound(_)) => true,
        (PhaseModel::Measuring, EventModel::SnapshotSize(_)) => true,
        (PhaseModel::Reading, EventModel::SnapshotRead { .. }) => true,
        (PhaseModel::Showing { .. }, EventModel::Proceed) => true,
        (PhaseModel::Refusing { .. }, EventModel::Proceed) => true,
        (PhaseModel::Confirming { .. }, EventModel::Interactive(_)) => true,
        (PhaseModel::Consenting { .. }, EventModel::Answer(_)) => true,
        (PhaseModel::Announcing { .. }, EventModel::Proceed) => true,
        (PhaseModel::Working { stage, .. }, e) => match (stage, e) {
            (StageModel::VenvAnnounced { .. }, EventModel::Proceed) => true,
            (StageModel::Probing { .. }, EventModel::Python3Available(_)) => true,
            (StageModel::CreatingVenv { .. }, EventModel::VenvCreated(_)) => true,
            (StageModel::CheckingTool { .. }, EventModel::ToolAvailable(_)) => true,
            (StageModel::Installing { .. }, EventModel::Installed(_)) => true,
            _ => false,
        },
        _ => false,
    }
}

fn clone_step_of(s: &InstallStep) -> (r: InstallStep)
    ensures
        r@ == s@,
{
    match s {
        InstallStep::Command { bin, args } => InstallStep::Command { bin: bin.clone(), args: clone_strings(args) },
        InstallStep::PipVenv { venv } => InstallStep::PipVenv { venv: venv.clone() },
    }
}

fn enter(steps: Vec<InstallStep>, index: usize, windows: bool) -> (r: (AwakePhase, AwakeAction))
    ensures
        (r.0@, r.1@) == enter_step(steps_view(steps@), index as int, windows),
{
    if index >= steps.len() {
        return (AwakePhase::Finished, AwakeAction::RemoveSnapshot);
    }
    assert(steps_view(steps@)[index as int] == steps@[index as int]@);
    match &steps[index] {
        InstallStep::Command { bin, args } => {
            let run = Program::Named(get_safe_bin(bin.as_str(), windows));
            let shown = Program::Named(bin.clone());
            let action = AwakeAction::CheckTool { run: clone_program_of(&run), shown: clone_program_of(&shown) };
            let args2 = clone_strings(args);
            (AwakePhase::Working { steps, index, stage: Stage::CheckingTool { run, shown, args: args2 } }, action)
        },
        InstallStep::PipVenv { venv } => {
            let v = venv.clone();
            let a = AwakeAction::RebuildVenv(venv.clone());
            (AwakePhase::Working { steps, index, stage: Stage::VenvAnnounced { venv: v } }, a)
        },
    }
}

fn clone_program_of(p: &Program) -> (r: Program)
    ensures
        r@ == p@,
{
    match p {
        Program::Named(s) => Program::Named(s.clone()),
        Program::VenvPip(s) => Program::VenvPip(s.clone()),
    }
}

fn fail(e: RehydrateError) -> (r: (AwakePhase, AwakeAction))
    ensures
        (r.0@, r.1@) == finish(e@),
{
    (AwakePhase::Finished, AwakeAction::Fail(e))
}

impl AwakeMachine {
    /// A rehydration begins by looking for the snapshot.
    pub fn start(windows: bool) -> (r: (AwakeMachine, AwakeAction))
        ensures
            r.0@ == (AwakeModel { windows, phase: PhaseModel::Locating }),
            r.1@ == ActionModel::LocateSnapshot,
    {
        (AwakeMachine { windows, phase: AwakePhase::Locating }, AwakeAction::LocateSnapshot)
    }

    /// Whether the machine waits for this kind of event.
    pub fn accepts(&self, e: &AwakeEvent) -> (r: bool)
        ensures
            r == awake_accepts(self@.phase, e@),
    {
        match (&self.phase, e) {
            (AwakePhase::Locating, AwakeEvent::SnapshotFound(_)) => true,
            (AwakePhase::Measuring, AwakeEvent::SnapshotSize(_)) => true,
            (AwakePhase::Reading, AwakeEvent::SnapshotRead(_)) => true,
            (AwakePhase::Showing { .. }, AwakeEvent::Proceed) => true,
            (AwakePhase::Refusing { .. }, AwakeEvent::Proceed) => true,
            (AwakePhase::Confirming { .. }, AwakeEvent::Interactive(_)) => true,
            (AwakePhase::Consenting { .. }, AwakeEvent::Answer(_)) => true,
            (AwakePhase::Announcing { .. }, AwakeEvent::Proceed) => true,
            (AwakePhase::Working { stage, .. }, e) => match (stage, e) {
                (Stage::VenvAnnounced { .. }, AwakeEvent::Proceed) => true,
                (Stage::Probing { .. }, AwakeEvent::Python3Available(_)) => true,
                (Stage::CreatingVenv { .. }, AwakeEvent::VenvCreated(_)) => true,
                (Stage::CheckingTool { .. }, AwakeEvent::ToolAvailable(_)) => true,
                (Stage::Installing { .. }, AwakeEvent::Installed(_)) => true,
                _ => false,
            },
            _ => false,
        }
    }

    /// Takes the outside world's report of the last action and decides what
    /// comes next.
    pub fn step(self, e: AwakeEvent) -> (r: (AwakeMachine, AwakeAction))
        requires
            awake_accepts(self@.phase, e@),
        ensures
            r.0@.windows == self@.windows,
            (r.0@.phase, r.1@) == awake_next(self@.phase, e@, self@.windows),
    {
        let windows = self.windows;
        let (phase, action) = match (self.phase, e) {
            (AwakePhase::Locating, AwakeEvent::SnapshotFound(found)) => if found {
                (AwakePhase::Measuring, AwakeAction::MeasureSnapshot)
            } else {
                fail(RehydrateError::NotHibernated)
            },
            (AwakePhase::Measuring, AwakeEvent::SnapshotSize(n)) => if n > MAX_SNAPSHOT_BYTES {
                fail(RehydrateError::SnapshotTooLarge)
            } else {
                (AwakePhase::Reading, AwakeAction::ReadSnapshot)
            },
            (AwakePhase::Reading, AwakeEvent::SnapshotRead(s)) => match plan_rehydration(&s.package_managers, &s.deleted_paths) {
                Ok(steps) => {
                    let lines = trust_prompt_lines(&steps, windows);
                    (AwakePhase::Showing { steps, ecosystems: s.ecosystems }, AwakeAction::ShowPlan(lines))
                },
                Err(refusal) => {
                    let lines = trust_prompt_lines(&refusal.accepted, windows);
                    (AwakePhase::Refusing { package_manager: refusal.package_manager }, AwakeAction::ShowPlan(lines))
                },
            },
            (AwakePhase::Showing { steps, ecosystems }, AwakeEvent::Proceed) => {
                (AwakePhase::Confirming { steps, ecosystems }, AwakeAction::CheckTerminal)
            },
            (AwakePhase::Refusing { package_manager }, AwakeEvent::Proceed) => {
                fail(RehydrateError::UnrecognizedPackageManager(package_manager))
            },
            (AwakePhase::Confirming { steps, ecosystems }, AwakeEvent::Interactive(tty)) => if tty {
                (AwakePhase::Consenting { steps, ecosystems }, AwakeAction::AskConsent)
            } else {
                fail(RehydrateError::NonInteractive)
            },
            (AwakePhase::Consenting { steps, ecosystems }, AwakeEvent::Answer(a)) => if is_consent(a.as_str()) {
                (AwakePhase::Announcing { steps }, AwakeAction::Announce(ecosystems))
            } else {
                fail(RehydrateError::Aborted)
            },
            (AwakePhase::Announcing { steps }, AwakeEvent::Proceed) => enter(steps, 0, windows),
            (AwakePhase::Working { steps, index, stage }, e) => match (stage, e) {
                (Stage::VenvAnnounced { venv }, AwakeEvent::Proceed) => if windows {
                    let v2 = venv.clone();
                    (
                        AwakePhase::Working { steps, index, stage: Stage::CreatingVenv { python: String::from_str("python"), venv } },
                        AwakeAction::CreateVenv { python: String::from_str("python"), venv: v2 },
                    )
                } else {
                    (AwakePhase::Working { steps, index, stage: Stage::Probing { venv } }, AwakeAction::ProbePython3)
                },
                (Stage::Probing { venv }, AwakeEvent::Python3Available(ok)) => {
                    let python = if ok { String::from_str("python3") } else { String::from_str("python") };
                    let p2 = python.clone();
                    let v2 = venv.clone();
                    (
                        AwakePhase::Working { steps, index, stage: Stage::CreatingVenv { python, venv } },
                        AwakeAction::CreateVenv { python: p2, venv: v2 },
                    )
                },
                (Stage::CreatingVenv { python, venv }, AwakeEvent::VenvCreated(o)) => match o {
                    VenvOutcome::Created => {
                        let stage = Stage::CheckingTool {
                            run: Program::VenvPip(venv.clone()),
                            shown: Program::VenvPip(venv.clone()),
                            args: pip_arguments(),
                        };
                        let action = AwakeAction::CheckTool { run: Program::VenvPip(venv.clone()), shown: Program::VenvPip(venv) };
                        (AwakePhase::Working { steps, index, stage }, action)
                    },
                    VenvOutcome::Failed => fail(RehydrateError::VenvFailed),
                    VenvOutcome::PythonNotFound => fail(RehydrateError::MissingPython),
                    VenvOutcome::SpawnError(d) => fail(RehydrateError::VenvSpawnFailed { python, detail: d }),
                },
                (Stage::CheckingTool { run, shown, args }, AwakeEvent::ToolAvailable(ok)) => if ok {
                    let s2 = clone_program_of(&shown);
                    (AwakePhase::Working { steps, index, stage: Stage::Installing { shown: s2 } }, AwakeAction::Install { run, shown, args })
                } else {
                    fail(RehydrateError::MissingDependency(shown))
                },
                (Stage::Installing { shown }, AwakeEvent::Installed(o)) => match o {
                    InstallOutcome::Succeeded => {
                        if index >= steps.len() {
                            (AwakePhase::Finished, AwakeAction::RemoveSnapshot)
                        } else {
                            enter(steps, index + 1, windows)
                        }
                    },
                    InstallOutcome::Failed => fail(RehydrateError::InstallFailed(shown)),
                    InstallOutcome::SpawnError(d) => fail(RehydrateError::SpawnFailed { program: shown, detail: d }),
                },
                _ => fail(RehydrateError::Aborted),
            },
            _ => fail(RehydrateError::Aborted),
        };
        (AwakeMachine { windows, phase }, action)
    }
}

fn pip_arguments() -> (r: Vec<String>)
    ensures
        names_of(r@) == pip_install_args(),
{
    let mut r: Vec<String> = Vec::new();
    r.push(String::from_str("install"));
    r.push(String::from_str("-r"));
    r.push(String::from_str("requirements.txt"));
    assert(names_of(r@) =~= pip_install_args());
    r
}

/// A step that the whitelist allows: a whitelisted command, or a `pip` rebuild.
pub open spec fn allowed_step(s: StepModel) -> bool {
    s is PipVenv || exists|pm: Seq<char>| #[trigger] whitelisted_command(pm) == Some(s)
}

pub open spec fn allowed_steps(steps: Seq<StepModel>) -> bool {
    forall|i: int| 0 <= i < steps.len() ==> #[trigger] allowed_step(steps[i])
}

/// What the stage of a step holds, given the step.
pub open spec fn stage_fits(s: StepModel, stage: StageModel, windows: bool) -> bool {
    match s {
        StepModel::Command { bin, args } => match stage {
            StageModel::CheckingTool { run, shown, args: a } => run == ProgramModel::Named(spec_safe_bin(bin, windows))
                && shown == ProgramModel::Named(bin) && a == args,
            StageModel::Installing { shown } => shown == ProgramModel::Named(bin),
            _ => false,
        },
        StepModel::PipVenv { venv } => match stage {
            StageModel::VenvAnnounced { venv: v } => v == venv,
            StageModel::Probing { venv: v } => v == venv,
            StageModel::CreatingVenv { venv: v, .. } => v == venv,
            StageModel::CheckingTool { run, shown, args } => run == ProgramModel::VenvPip(venv) && shown
                == ProgramModel::VenvPip(venv) && args == pip_install_args(),
            StageModel::Installing { shown } => shown == ProgramModel::VenvPip(venv),
        },
    }
}

/// What holds of every phase that a rehydration reaches from its start.
pub open spec fn awake_inv(phase: PhaseModel, windows: bool) -> bool {
    match phase {
        PhaseModel::Showing { steps, .. } => allowed_steps(steps),
        PhaseModel::Confirming { steps, .. } => allowed_steps(steps),
        PhaseModel::Consenting { steps, .. } => allowed_steps(steps),
        PhaseModel::Announcing { steps } => allowed_steps(steps),
        PhaseModel::Working { steps, index, stage } => allowed_steps(steps) && 0 <= index < steps.len()
            && stage_fits(steps[index], stage, windows),
        _ => true,
    }
}

/// The phases in which the user has consented.
pub open spec fn consented(phase: PhaseModel) -> bool {
    phase is Announcing || phase is Working
}

/// A consenting answer given at the trust prompt.
pub open spec fn consenting_answer(phase: PhaseModel, e: EventModel) -> bool {
    phase is Consenting && match e {
        EventModel::Answer(ans) => spec_consent(trimmed(ans), lowercased(trimmed(ans))),
        _ => false,
    }
}

/// Actions that change the machine or the project.
pub open spec fn acts_on_project(a: ActionModel) -> bool {
    a is Announce || a is RebuildVenv || a is ProbePython3 || a is CreateVenv || a is CheckTool
        || a is Install || a is RemoveSnapshot
}

proof fn lemma_plan_allowed(pms: Seq<Seq<char>>, d: Seq<Seq<char>>)
    ensures
        spec_plan(pms, d) matches Ok(steps) ==> allowed_steps(steps) && steps.len() == pms.len(),
    decreases pms.len(),
{
    if pms.len() > 0 {
        lemma_plan_allowed(pms.drop_last(), d);
        if let Ok(steps) = spec_plan(pms, d) {
            let pre = spec_plan(pms.drop_last(), d)->Ok_0;
            let last = pms.last();
            assert(steps == pre.push(steps.last()));
            if !(steps.last() is PipVenv) {
                assert(whitelisted_command(last) == Some(steps.last()));
            }
            assert forall|i: int| 0 <= i < steps.len() implies #[trigger] allowed_step(steps[i]) by {
                if i < pre.len() {
                    assert(steps[i] == pre[i]);
                    assert(allowed_step(pre[i]));
                }
            }
        }
    }
}

proof fn lemma_enter_step(steps: Seq<StepModel>, index: int, windows: bool)
    requires
        allowed_steps(steps),
        0 <= index,
    ensures
        awake_inv(enter_step(steps, index, windows).0, windows),
        consented(enter_step(steps, index, windows).0) || enter_step(steps, index, windows).0 is Finished,
        enter_step(steps, index, windows).1 is RemoveSnapshot <==> index >= steps.len(),
{
}

/// The machine keeps its invariant: from a reachable phase, every accepted
/// event leads to a reachable phase.
pub proof fn lemma_awake_inv_preserved(phase: PhaseModel, e: EventModel, windows: bool)
    requires
        awake_inv(phase, windows),
        awake_accepts(phase, e),
    ensures
        awake_inv(awake_next(phase, e, windows).0, windows),
{
    if let (PhaseModel::Reading, EventModel::SnapshotRead { package_managers, deleted_paths, .. }) = (phase, e) {
        lemma_plan_allowed(package_managers, deleted_paths);
    }
    if let PhaseModel::Announcing { steps } = phase {
        lemma_enter_step(steps, 0, windows);
    }
    if let PhaseModel::Working { steps, index, stage } = phase {
        lemma_enter_step(steps, index + 1, windows);
    }
}

/// The first phase of a rehydration is reachable.
pub proof fn lemma_awake_inv_start(windows: bool)
    ensures
        awake_inv(PhaseModel::Locating, windows),
{
}

/// Consent: the user's consent is the only way into the phases that act on
/// the project. Nothing is announced, probed, created, checked, installed or
/// removed from a phase without consent, and a phase without consent leads
/// to one with consent only on an answer that consents.
pub proof fn lemma_nothing_runs_without_consent(phase: PhaseModel, e: EventModel, windows: bool)
    requires
        awake_accepts(phase, e),
    ensures
        ({
            let (next, a) = awake_next(phase, e, windows);
            &&& (consented(next) && !consented(phase)) ==> consenting_answer(phase, e)
            &&& acts_on_project(a) ==> consented(phase) || consenting_answer(phase, e)
        }),
{
}

/// Whitelist: in a reachable phase, every program that is run comes from a
/// whitelisted command of the plan (with its arguments, and on Windows through
/// its `.cmd` script) or is the `pip` of a rebuilt virtual environment, run
/// with `install -r requirements.txt`.
pub proof fn lemma_only_whitelisted_commands_run(phase: PhaseModel, e: EventModel, windows: bool)
    requires
        awake_inv(phase, windows),
        awake_accepts(phase, e),
    ensures
        awake_next(phase, e, windows).1 matches ActionModel::Install { run, shown, args } ==> {
            ||| exists|pm: Seq<char>, bin: Seq<char>|
                #![trigger whitelisted_command(pm), spec_safe_bin(bin, windows)]
                whitelisted_command(pm) == Some(StepModel::Command { bin, args })
                && run == ProgramModel::Named(spec_safe_bin(bin, windows)) && shown == ProgramModel::Named(bin)
            ||| exists|venv: Seq<char>| run == ProgramModel::VenvPip(venv) && shown == run && args == pip_install_args()
        },
{
    if let PhaseModel::Working { steps, index, stage } = phase {
        if let (StageModel::CheckingTool { run, shown, args }, EventModel::ToolAvailable(true)) = (stage, e) {
            assert(allowed_step(steps[index]));
            match steps[index] {
                StepModel::Command { bin, args: a } => {
                    let pm = choose|pm: Seq<char>| #[trigger] whitelisted_command(pm) == Some(steps[index]);
                    assert(whitelisted_command(pm) == Some(StepModel::Command { bin, args }));
                    assert(run == ProgramModel::Named(spec_safe_bin(bin, windows)));
                },
                StepModel::PipVenv { venv } => {
                    assert(run == ProgramModel::VenvPip(venv));
                },
            }
        }
    }
}

/// The snapshot is deleted only after the last step of the plan succeeded (or
/// at once, when the plan is empty), and a failure stops the rehydration.
pub proof fn lemma_snapshot_removed_only_after_all_steps(phase: PhaseModel, e: EventModel, windows: bool)
    requires
        awake_inv(phase, windows),
        awake_accepts(phase, e),
    ensures
        awake_next(phase, e, windows).1 is RemoveSnapshot ==> {
            ||| phase matches PhaseModel::Working { steps, index, stage } && stage is Installing && e
                == EventModel::Installed(InstallOutcomeModel::Succeeded) && index + 1 == steps.len()
            ||| phase matches PhaseModel::Announcing { steps } && steps.len() == 0
        },
        awake_next(phase, e, windows).1 is Fail ==> awake_next(phase, e, windows).0 is Finished,
{
    if let PhaseModel::Announcing { steps } = phase {
        lemma_enter_step(steps, 0, windows);
    }
    if let PhaseModel::Working { steps, index, stage } = phase {
        lemma_enter_step(steps, index + 1, windows);
    }
}

/// Size limit: a snapshot larger than `MAX_SNAPSHOT_BYTES` is refused and
/// never read; one within the limit is read.
pub proof fn lemma_oversized_snapshot_refused(n: u64, windows: bool)
    ensures
        n > MAX_SNAPSHOT_BYTES ==> awake_next(PhaseModel::Measuring, EventModel::SnapshotSize(n), windows)
            == finish(ErrorModel::SnapshotTooLarge),
        n <= MAX_SNAPSHOT_BYTES ==> awake_next(PhaseModel::Measuring, EventModel::SnapshotSize(n), windows).1
            is ReadSnapshot,
{
}

/// A snapshot naming a package manager off the whitelist is refused before
/// anything is asked or run: the plan lines of the managers before it are
/// shown, and the rehydration then stops with that manager.
pub proof fn lemma_unknown_manager_refused(ecos: Seq<Seq<char>>, pms: Seq<Seq<char>>, deleted: Seq<Seq<char>>, windows: bool)
    requires
        spec_plan(pms, deleted) is Err,
    ensures
        ({
            let (accepted, pm) = spec_plan(pms, deleted)->Err_0;
            let (next, act) = awake_next(PhaseModel::Reading, EventModel::SnapshotRead { ecosystems: ecos, package_managers: pms, deleted_paths: deleted }, windows);
            &&& next == PhaseModel::Refusing { package_manager: pm }
            &&& act == ActionModel::ShowPlan(prompt_lines(accepted, windows))
            &&& awake_next(next, EventModel::Proceed, windows) == finish(ErrorModel::UnrecognizedPackageManager(pm))
        }),
{
}

/// The plan that a phase holds, from the moment it is shown until it is run.
pub open spec fn planned_steps(p: PhaseModel) -> Option<Seq<StepModel>> {
    match p {
        PhaseModel::Showing { steps, .. } => Some(steps),
        PhaseModel::Confirming { steps, .. } => Some(steps),
        PhaseModel::Consenting { steps, .. } => Some(steps),
        PhaseModel::Announcing { steps } => Some(steps),
        PhaseModel::Working { steps, .. } => Some(steps),
        _ => None,
    }
}

/// What is shown is what runs: reading a snapshot whose package managers are
/// all whitelisted shows the command lines of every step of its plan, and the
/// phase keeps exactly those steps; from then on, through the terminal check,
/// the consent, the announcement and the work, the steps never change. A
/// snapshot with a refused manager shows the lines of the steps before it.
pub proof fn lemma_shown_plan_is_run(phase: PhaseModel, e: EventModel, windows: bool)
    requires
        awake_accepts(phase, e),
    ensures
        ({
            let (next, act) = awake_next(phase, e, windows);
            &&& (planned_steps(phase) is Some && planned_steps(next) is Some) ==> planned_steps(phase) == planned_steps(next)
            &&& (planned_steps(next) is Some && planned_steps(phase) is None) ==> phase is Reading && next is Showing
                && act == ActionModel::ShowPlan(prompt_lines(planned_steps(next).unwrap(), windows))
            &&& e matches EventModel::SnapshotRead { package_managers, deleted_paths, .. } ==> match spec_plan(
                package_managers,
                deleted_paths,
            ) {
                Ok(steps) => planned_steps(next) == Some(steps) && act == ActionModel::ShowPlan(prompt_lines(steps, windows)),
                Err((accepted, _)) => act == ActionModel::ShowPlan(prompt_lines(accepted, windows)),
            }
        }),
{
}

} // verus!
