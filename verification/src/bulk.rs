use vstd::prelude::*;

use crate::ecosystem::{analysis_model, AnalysisError, AnalysisModel, MetadataModel, PolyglotMetadata};
use crate::prompt::{bulk_choice, is_consent, lowercased, spec_bulk_choice, spec_consent, uppercased, BulkChoice};
use crate::text::trimmed;

verus! {

/// A project that is ready to hibernate: its position in the list of stale
/// projects, and its analysis.
pub struct ReadyProject {
    pub index: usize,
    pub metadata: PolyglotMetadata,
}

pub struct ReadyModel {
    pub index: int,
    pub metadata: MetadataModel,
}

impl View for ReadyProject {
    type V = ReadyModel;

    open spec fn view(&self) -> ReadyModel {
        ReadyModel { index: self.index as int, metadata: self.metadata@ }
    }
}

/// A project that lacks a lockfile: its position in the list of stale
/// projects, and the command that would generate the lockfile.
pub struct MissingProject {
    pub index: usize,
    pub command: String,
}

pub struct MissingModel {
    pub index: int,
    pub command: Seq<char>,
}

impl View for MissingProject {
    type V = MissingModel;

    open spec fn view(&self) -> MissingModel {
        MissingModel { index: self.index as int, command: self.command@ }
    }
}

pub open spec fn ready_models(v: Seq<ReadyProject>) -> Seq<ReadyModel> {
    v.map_values(|r: ReadyProject| r@)
}

pub open spec fn missing_models(v: Seq<MissingProject>) -> Seq<MissingModel> {
    v.map_values(|m: MissingProject| m@)
}

/// The projects whose analysis found them ready, with their positions, in order.
pub open spec fn ready_of(a: Seq<AnalysisModel>) -> Seq<ReadyModel>
    decreases a.len(),
{
    if a.len() == 0 {
        seq![]
    } else {
        let rest = ready_of(a.drop_last());
        match a.last() {
            AnalysisModel::Ready(m) => rest.push(ReadyModel { index: a.len() - 1, metadata: m }),
            _ => rest,
        }
    }
}

/// The projects whose analysis found a lockfile missing, with their positions
/// and generation commands, in order.
pub open spec fn missing_of(a: Seq<AnalysisModel>) -> Seq<MissingModel>
    decreases a.len(),
{
    if a.len() == 0 {
        seq![]
    } else {
        let rest = missing_of(a.drop_last());
        match a.last() {
            AnalysisModel::MissingLockfile { generation_command, .. } => rest.push(
                MissingModel { index: a.len() - 1, command: generation_command },
            ),
            _ => rest,
        }
    }
}

/// How many projects failed analysis for another reason.
pub open spec fn failed_of(a: Seq<AnalysisModel>) -> int
    decreases a.len(),
{
    if a.len() == 0 {
        0
    } else {
        failed_of(a.drop_last()) + match a.last() {
            AnalysisModel::Ready(_) => 0int,
            AnalysisModel::MissingLockfile { .. } => 0int,
            _ => 1int,
        }
    }
}

pub open spec fn analysis_models(a: Seq<Result<PolyglotMetadata, AnalysisError>>) -> Seq<AnalysisModel> {
    a.map_values(|r: Result<PolyglotMetadata, AnalysisError>| analysis_model(r))
}

/// How a bulk hibernation ended without hibernating anything.
#[derive(Debug, Clone, Copy, PartialEq, Eq, Structural)]
pub enum BulkOutcome {
    /// No stale project is ready or merely lacks a lockfile.
    NothingToProcess,
    /// No project is ready once the missing lockfiles were dealt with.
    NothingToHibernate,
}

/// What the outside world reports back to a bulk hibernation.
pub enum BulkEvent {
    /// The previous action was carried out.
    Proceed,
    /// Whether standard input is a terminal.
    Interactive(bool),
    /// The line typed at the menu for the missing lockfiles.
    Choice(String),
    /// The line typed at the question about one project.
    Answer(String),
    /// Whether the lockfile generator exited successfully.
    LockfileGenerated(bool),
    /// The analysis of the project after its lockfile was generated.
    Reanalyzed(Result<PolyglotMetadata, AnalysisError>),
}

pub enum BulkEventModel {
    Proceed,
    Interactive(bool),
    Choice(Seq<char>),
    Answer(Seq<char>),
    LockfileGenerated(bool),
    Reanalyzed(AnalysisModel),
}

impl View for BulkEvent {
    type V = BulkEventModel;

    open spec fn view(&self) -> BulkEventModel {
        match self {
            BulkEvent::Proceed => BulkEventModel::Proceed,
            BulkEvent::Interactive(b) => BulkEventModel::Interactive(*b),
            BulkEvent::Choice(c) => BulkEventModel::Choice(c@),
            BulkEvent::Answer(a) => BulkEventModel::Answer(a@),
            BulkEvent::LockfileGenerated(b) => BulkEventModel::LockfileGenerated(*b),
            BulkEvent::Reanalyzed(r) => BulkEventModel::Reanalyzed(analysis_model(*r)),
        }
    }
}

/// What a bulk hibernation asks the outside world to do next.
pub enum BulkAction {
    /// Report how many projects are ready, lack a lockfile, and failed.
    Summarize { ready: usize, missing: usize, failed: usize },
    /// Report whether standard input is a terminal.
    CheckTerminal,
    /// Tell that the generation of this many missing lockfiles is skipped,
    /// since input is not interactive or this is a dry run.
    NoticeSkipGeneration(usize),
    /// Offer the menu for this many missing lockfiles, beside this many ready
    /// projects, and report the line typed.
    AskBulkChoice { ready: usize, missing: usize },
    /// Ask whether to generate the lockfile of this project, and report the answer.
    AskEach(usize),
    /// Run this command in this project to generate its lockfile; `asked`
    /// tells whether the user was asked about this project alone.
    Generate { index: usize, command: String, asked: bool },
    /// Analyse this project again.
    Reanalyze(usize),
    /// Tell that the projects missing lockfiles are skipped.
    NoticeSkipMissing,
    /// Hibernate these projects, in this order.
    Hibernate(Vec<ReadyProject>),
    /// Stop without hibernating anything.
    Done(BulkOutcome),
}

pub enum BulkActionModel {
    Summarize { ready: int, missing: int, failed: int },
    CheckTerminal,
    NoticeSkipGeneration(int),
    AskBulkChoice { ready: int, missing: int },
    AskEach(int),
    Generate { index: int, command: Seq<char>, asked: bool },
    Reanalyze(int),
    NoticeSkipMissing,
    Hibernate(Seq<ReadyModel>),
    Done(BulkOutcome),
}

impl View for BulkAction {
    type V = BulkActionModel;

    open spec fn view(&self) -> BulkActionModel {
        match self {
            BulkAction::Summarize { ready, missing, failed } => BulkActionModel::Summarize {
                ready: *ready as int,
                missing: *missing as int,
                failed: *failed as int,
            },
            BulkAction::CheckTerminal => BulkActionModel::CheckTerminal,
            BulkAction::NoticeSkipGeneration(n) => BulkActionModel::NoticeSkipGeneration(*n as int),
            BulkAction::AskBulkChoice { ready, missing } => BulkActionModel::AskBulkChoice {
                ready: *ready as int,
                missing: *missing as int,
            },
            BulkAction::AskEach(i) => BulkActionModel::AskEach(*i as int),
            BulkAction::Generate { index, command, asked } => BulkActionModel::Generate {
                index: *index as int,
                command: command@,
                asked: *asked,
            },
            BulkAction::Reanalyze(i) => BulkActionModel::Reanalyze(*i as int),
            BulkAction::NoticeSkipMissing => BulkActionModel::NoticeSkipMissing,
            BulkAction::Hibernate(v) => BulkActionModel::Hibernate(ready_models(v@)),
            BulkAction::Done(o) => BulkActionModel::Done(*o),
        }
    }
}

/// Where a bulk hibernation stands; the name of each phase says what it waits for.
pub enum BulkPhase {
    /// Waiting for the summary to be shown.
    Summarizing { ready: Vec<ReadyProject>, missing: Vec<MissingProject> },
    /// Waiting to learn whether input is interactive.
    CheckingTerminal { ready: Vec<ReadyProject>, missing: Vec<MissingProject> },
    /// Waiting for the line typed at the menu.
    Choosing { ready: Vec<ReadyProject>, missing: Vec<MissingProject> },
    /// Waiting for the answer about missing project `index`.
    Asking { ready: Vec<ReadyProject>, missing: Vec<MissingProject>, index: usize },
    /// Waiting for the generation of the lockfile of missing project `index`.
    Generating { ready: Vec<ReadyProject>, missing: Vec<MissingProject>, index: usize, asked: bool },
    /// Waiting for the new analysis of missing project `index`.
    Reanalyzing { ready: Vec<ReadyProject>, missing: Vec<MissingProject>, index: usize, asked: bool },
    /// Waiting for a notice to be shown before hibernating.
    Noticing { ready: Vec<ReadyProject> },
    Finished,
}

pub enum BulkPhaseModel {
    Summarizing { ready: Seq<ReadyModel>, missing: Seq<MissingModel> },
    CheckingTerminal { ready: Seq<ReadyModel>, missing: Seq<MissingModel> },
    Choosing { ready: Seq<ReadyModel>, missing: Seq<MissingModel> },
    Asking { ready: Seq<ReadyModel>, missing: Seq<MissingModel>, index: int },
    Generating { ready: Seq<ReadyModel>, missing: Seq<MissingModel>, index: int, asked: bool },
    Reanalyzing { ready: Seq<ReadyModel>, missing: Seq<MissingModel>, index: int, asked: bool },
    Noticing { ready: Seq<ReadyModel> },
    Finished,
}

impl View for BulkPhase {
    type V = BulkPhaseModel;

    open spec fn view(&self) -> BulkPhaseModel {
        match self {
            BulkPhase::Summarizing { ready, missing } => BulkPhaseModel::Summarizing {
                ready: ready_models(ready@),
                missing: missing_models(missing@),
            },
            BulkPhase::CheckingTerminal { ready, missing } => BulkPhaseModel::CheckingTerminal {
                ready: ready_models(ready@),
                missing: missing_models(missing@),
            },
            BulkPhase::Choosing { ready, missing } => BulkPhaseModel::Choosing {
                ready: ready_models(ready@),
                missing: missing_models(missing@),
            },
            BulkPhase::Asking { ready, missing, index } => BulkPhaseModel::Asking {
                ready: ready_models(ready@),
                missing: missing_models(missing@),
                index: *index as int,
            },
            BulkPhase::Generating { ready, missing, index, asked } => BulkPhaseModel::Generating {
                ready: ready_models(ready@),
                missing: missing_models(missing@),
                index: *index as int,
                asked: *asked,
            },
            BulkPhase::Reanalyzing { ready, missing, index, asked } => BulkPhaseModel::Reanalyzing {
                ready: ready_models(ready@),
                missing: missing_models(missing@),
                index: *index as int,
                asked: *asked,
            },
            BulkPhase::Noticing { ready } => BulkPhaseModel::Noticing { ready: ready_models(ready@) },
            BulkPhase::Finished => BulkPhaseModel::Finished,
        }
    }
}

/// The decisions of hibernating every stale project at once: sort the
/// projects by their analysis, offer to generate missing lockfiles when
/// someone can be asked, and hand over the projects that are ready.
pub struct BulkHibernation {
    dry_run: bool,
    phase: BulkPhase,
}

pub struct BulkModel {
    pub dry_run: bool,
    pub phase: BulkPhaseModel,
}

impl View for BulkHibernation {
    type V = BulkModel;

    closed spec fn view(&self) -> BulkModel {
        BulkModel { dry_run: self.dry_run, phase: self.phase@ }
    }
}

/// The end of a bulk hibernation: the ready projects are hibernated, or, if
/// there are none, nothing is.
pub open spec fn bulk_finish(ready: Seq<ReadyModel>) -> (BulkPhaseModel, BulkActionModel) {
    if ready.len() == 0 {
        (BulkPhaseModel::Finished, BulkActionModel::Done(BulkOutcome::NothingToHibernate))
    } else {
        (BulkPhaseModel::Finished, BulkActionModel::Hibernate(ready))
    }
}

/// The phase and action with which missing project `index` is handled: asked
/// about first when `asked`, else its lockfile generated at once; past the
/// last one, the bulk hibernation ends.
pub open spec fn enter_missing(ready: Seq<ReadyModel>, missing: Seq<MissingModel>, index: int, asked: bool) -> (BulkPhaseModel, BulkActionModel) {
    if index < 0 || index >= missing.len() {
        bulk_finish(ready)
    } else if asked {
        (BulkPhaseModel::Asking { ready, missing, index }, BulkActionModel::AskEach(missing[index].index))
    } else {
        (
            BulkPhaseModel::Generating { ready, missing, index, asked },
            BulkActionModel::Generate { index: missing[index].index, command: missing[index].command, asked },
        )
    }
}

/// The first phase and action for the analyses of the stale projects.
pub open spec fn bulk_start(a: Seq<AnalysisModel>) -> (BulkPhaseModel, BulkActionModel) {
    let ready = ready_of(a);
    let missing = missing_of(a);
    if ready.len() + missing.len() == 0 {
        (BulkPhaseModel::Finished, BulkActionModel::Done(BulkOutcome::NothingToProcess))
    } else {
        (
            BulkPhaseModel::Summarizing { ready, missing },
            BulkActionModel::Summarize { ready: ready.len() as int, missing: missing.len() as int, failed: failed_of(a) },
        )
    }
}

/// The phase and action that follow a phase on an event.
pub open spec fn bulk_next(m: BulkModel, e: BulkEventModel) -> (BulkPhaseModel, BulkActionModel) {
    match (m.phase, e) {
        (BulkPhaseModel::Summarizing { ready, missing }, BulkEventModel::Proceed) => if missing.len() == 0 {
            bulk_finish(ready)
        } else if m.dry_run {
            (BulkPhaseModel::Noticing { ready }, BulkActionModel::NoticeSkipGeneration(missing.len() as int))
        } else {
            (BulkPhaseModel::CheckingTerminal { ready, missing }, BulkActionModel::CheckTerminal)
        },
        (BulkPhaseModel::CheckingTerminal { ready, missing }, BulkEventModel::Interactive(tty)) => if tty {
            (
                BulkPhaseModel::Choosing { ready, missing },
                BulkActionModel::AskBulkChoice { ready: ready.len() as int, missing: missing.len() as int },
            )
        } else {
            (BulkPhaseModel::Noticing { ready }, BulkActionModel::NoticeSkipGeneration(missing.len() as int))
        },
        (BulkPhaseModel::Choosing { ready, missing }, BulkEventModel::Choice(c)) => match spec_bulk_choice(uppercased(trimmed(c))) {
            BulkChoice::GenerateAll => enter_missing(ready, missing, 0, false),
            BulkChoice::AskEach => enter_missing(ready, missing, 0, true),
            BulkChoice::Skip => (BulkPhaseModel::Noticing { ready }, BulkActionModel::NoticeSkipMissing),
        },
        (BulkPhaseModel::Asking { ready, missing, index }, BulkEventModel::Answer(a)) => if spec_consent(trimmed(a), lowercased(trimmed(a))) {
            (
                BulkPhaseModel::Generating { ready, missing, index, asked: true },
                BulkActionModel::Generate { index: missing[index].index, command: missing[index].command, asked: true },
            )
        } else {
            enter_missing(ready, missing, index + 1, true)
        },
        (BulkPhaseModel::Generating { ready, missing, index, asked }, BulkEventModel::LockfileGenerated(ok)) => if ok {
            (BulkPhaseModel::Reanalyzing { ready, missing, index, asked }, BulkActionModel::Reanalyze(missing[index].index))
        } else {
            enter_missing(ready, missing, index + 1, asked)
        },
        (BulkPhaseModel::Reanalyzing { ready, missing, index, asked }, BulkEventModel::Reanalyzed(a)) => match a {
            AnalysisModel::Ready(md) => enter_missing(
                ready.push(ReadyModel { index: missing[index].index, metadata: md }),
                missing,
                index + 1,
                asked,
            ),
            _ => enter_missing(ready, missing, index + 1, asked),
        },
        (BulkPhaseModel::Noticing { ready }, BulkEventModel::Proceed) => bulk_finish(ready),
        _ => (BulkPhaseModel::Finished, BulkActionModel::Done(BulkOutcome::NothingToHibernate)),
    }
}

/// Whether a phase waits for this kind of event.
pub open spec fn bulk_accepts(m: BulkModel, e: BulkEventModel) -> bool {
    match (m.phase, e) {
        (BulkPhaseModel::Summarizing { .. }, BulkEventModel::Proceed) => true,
        (BulkPhaseModel::CheckingTerminal { .. }, BulkEventModel::Interactive(_)) => true,
        (BulkPhaseModel::Choosing { .. }, BulkEventModel::Choice(_)) => true,
        (BulkPhaseModel::Asking { missing, index, .. }, BulkEventModel::Answer(_)) => 0 <= index < missing.len(),
        (BulkPhaseModel::Generating { missing, index, .. }, BulkEventModel::LockfileGenerated(_)) => 0 <= index
            < missing.len(),
        (BulkPhaseModel::Reanalyzing { missing, index, .. }, BulkEventModel::Reanalyzed(_)) => 0 <= index
            < missing.len(),
        (BulkPhaseModel::Noticing { .. }, BulkEventModel::Proceed) => true,
        _ => false,
    }
}

fn bulk_finish_exec(ready: Vec<ReadyProject>) -> (r: (BulkPhase, BulkAction))
    ensures
        (r.0@, r.1@) == bulk_finish(ready_models(ready@)),
{
    if ready.len() == 0 {
        (BulkPhase::Finished, BulkAction::Done(BulkOutcome::NothingToHibernate))
    } else {
        (BulkPhase::Finished, BulkAction::Hibernate(ready))
    }
}

fn enter_missing_exec(ready: Vec<ReadyProject>, missing: Vec<MissingProject>, index: usize, asked: bool) -> (r: (BulkPhase, BulkAction))
    ensures
        (r.0@, r.1@) == enter_missing(ready_models(ready@), missing_models(missing@), index as int, asked),
{
    if index >= missing.len() {
        bulk_finish_exec(ready)
    } else if asked {
        let i = missing[index].index;
        (BulkPhase::Asking { ready, missing, index }, BulkAction::AskEach(i))
    } else {
        let i = missing[index].index;
        let c = missing[index].command.clone();
        (BulkPhase::Generating { ready, missing, index, asked }, BulkAction::Generate { index: i, command: c, asked })
    }
}

fn push_ready(ready: &mut Vec<ReadyProject>, index: usize, metadata: PolyglotMetadata)
    ensures
        ready_models(final(ready)@) == ready_models(old(ready)@).push(ReadyModel { index: index as int, metadata: metadata@ }),
{
    let ghost before = ready_models(ready@);
    ready.push(ReadyProject { index, metadata });
    assert(ready_models(ready@) =~= before.push(ReadyModel { index: index as int, metadata: metadata@ }));
}

impl BulkHibernation {
    /// Sorts the analyses of the stale projects, in their order, into ready
    /// projects, projects missing a lockfile and failures, and begins: with a
    /// summary, or at once done when no project is ready or merely lacks a lockfile.
    pub fn start(analyses: Vec<Result<PolyglotMetadata, AnalysisError>>, dry_run: bool) -> (r: (BulkHibernation, BulkAction))
        ensures
            r.0@.dry_run == dry_run,
            (r.0@.phase, r.1@) == bulk_start(analysis_models(analyses@)),
    {
        let ghost all = analysis_models(analyses@);
        let n: usize = analyses.len();
        let ghost total: int = n as int;
        let mut rest = analyses;
        let mut ready: Vec<ReadyProject> = Vec::new();
        let mut missing: Vec<MissingProject> = Vec::new();
        let mut failed: usize = 0;
        let mut k: usize = 0;
        proof {
            assert(all.subrange(0, 0) =~= seq![]);
            assert(ready_models(ready@) =~= seq![]);
            assert(missing_models(missing@) =~= seq![]);
        }
        while rest.len() > 0
            invariant
                all.len() == total,
                0 <= k <= total,
                rest@.len() == total - k,
                forall|j: int| 0 <= j < rest@.len() ==> #[trigger] analysis_model(rest@[j]) == all[k + j],
                ready_models(ready@) == ready_of(all.subrange(0, k as int)),
                missing_models(missing@) == missing_of(all.subrange(0, k as int)),
                failed == failed_of(all.subrange(0, k as int)),
                ready@.len() + missing@.len() + failed == k,
                total <= usize::MAX,
            decreases rest.len(),
        {
            let ghost pre = all.subrange(0, k as int);
            let ghost next = all.subrange(0, k + 1);
            let ghost old_rest = rest@;
            let a = rest.remove(0);
            proof {
                assert(next.drop_last() =~= pre);
                assert(analysis_model(old_rest[0]) == all[k as int]);
                assert(next.last() == all[k as int]);
                assert forall|j: int| 0 <= j < rest@.len() implies #[trigger] analysis_model(rest@[j]) == all[k + 1 + j] by {
                    assert(rest@[j] == old_rest[j + 1]);
                }
            }
            match a {
                Ok(metadata) => {
                    push_ready(&mut ready, k, metadata);
                },
                Err(AnalysisError::MissingLockfile(m)) => {
                    let ghost before = missing_models(missing@);
                    missing.push(MissingProject { index: k, command: m.generation_command });
                    assert(missing_models(missing@) =~= before.push(MissingModel { index: k as int, command: m.generation_command@ }));
                },
                Err(_) => {
                    failed = failed + 1;
                },
            }
            k = k + 1;
        }
        proof {
            assert(all.subrange(0, k as int) =~= all);
        }
        let (phase, action) = if ready.len() + missing.len() == 0 {
            (BulkPhase::Finished, BulkAction::Done(BulkOutcome::NothingToProcess))
        } else {
            let nr = ready.len();
            let nm = missing.len();
            (BulkPhase::Summarizing { ready, missing }, BulkAction::Summarize { ready: nr, missing: nm, failed })
        };
        (BulkHibernation { dry_run, phase }, action)
    }

    /// Whether the bulk hibernation waits for this event.
    pub fn accepts(&self, e: &BulkEvent) -> (r: bool)
        ensures
            r == bulk_accepts(self@, e@),
    {
        match (&self.phase, e) {
            (BulkPhase::Summarizing { .. }, BulkEvent::Proceed) => true,
            (BulkPhase::CheckingTerminal { .. }, BulkEvent::Interactive(_)) => true,
            (BulkPhase::Choosing { .. }, BulkEvent::Choice(_)) => true,
            (BulkPhase::Asking { missing, index, .. }, BulkEvent::Answer(_)) => *index < missing.len(),
            (BulkPhase::Generating { missing, index, .. }, BulkEvent::LockfileGenerated(_)) => *index < missing.len(),
            (BulkPhase::Reanalyzing { missing, index, .. }, BulkEvent::Reanalyzed(_)) => *index < missing.len(),
            (BulkPhase::Noticing { .. }, BulkEvent::Proceed) => true,
            _ => false,
        }
    }

    /// Takes the outside world's report of the last action and decides what
    /// comes next.
    pub fn step(self, e: BulkEvent) -> (r: (BulkHibernation, BulkAction))
        requires
            bulk_accepts(self@, e@),
        ensures
            r.0@.dry_run == self@.dry_run,
            (r.0@.phase, r.1@) == bulk_next(self@, e@),
    {
        let dry_run = self.dry_run;
        let (phase, action) = match (self.phase, e) {
            (BulkPhase::Summarizing { ready, missing }, BulkEvent::Proceed) => if missing.len() == 0 {
                bulk_finish_exec(ready)
            } else if dry_run {
                let n = missing.len();
                (BulkPhase::Noticing { ready }, BulkAction::NoticeSkipGeneration(n))
            } else {
                (BulkPhase::CheckingTerminal { ready, missing }, BulkAction::CheckTerminal)
            },
            (BulkPhase::CheckingTerminal { ready, missing }, BulkEvent::Interactive(tty)) => if tty {
                let nr = ready.len();
                let nm = missing.len();
                (BulkPhase::Choosing { ready, missing }, BulkAction::AskBulkChoice { ready: nr, missing: nm })
            } else {
                let n = missing.len();
                (BulkPhase::Noticing { ready }, BulkAction::NoticeSkipGeneration(n))
            },
            (BulkPhase::Choosing { ready, missing }, BulkEvent::Choice(c)) => match bulk_choice(c.as_str()) {
                BulkChoice::GenerateAll => enter_missing_exec(ready, missing, 0, false),
                BulkChoice::AskEach => enter_missing_exec(ready, missing, 0, true),
                BulkChoice::Skip => (BulkPhase::Noticing { ready }, BulkAction::NoticeSkipMissing),
            },
            (BulkPhase::Asking { ready, missing, index }, BulkEvent::Answer(a)) => if index >= missing.len() {
                bulk_finish_exec(ready)
            } else if is_consent(a.as_str()) {
                let i = missing[index].index;
                let c = missing[index].command.clone();
                (
                    BulkPhase::Generating { ready, missing, index, asked: true },
                    BulkAction::Generate { index: i, command: c, asked: true },
                )
            } else {
                enter_missing_exec(ready, missing, index + 1, true)
            },
            (BulkPhase::Generating { ready, missing, index, asked }, BulkEvent::LockfileGenerated(ok)) => if index
                >= missing.len() {
                bulk_finish_exec(ready)
            } else if ok {
                let i = missing[index].index;
                (BulkPhase::Reanalyzing { ready, missing, index, asked }, BulkAction::Reanalyze(i))
            } else {
                enter_missing_exec(ready, missing, index + 1, asked)
            },
            (BulkPhase::Reanalyzing { ready, missing, index, asked }, BulkEvent::Reanalyzed(a)) => if index
                >= missing.len() {
                bulk_finish_exec(ready)
            } else {
                match a {
                    Ok(metadata) => {
                        let mut ready = ready;
                        let i = missing[index].index;
                        push_ready(&mut ready, i, metadata);
                        enter_missing_exec(ready, missing, index + 1, asked)
                    },
                    Err(_) => enter_missing_exec(ready, missing, index + 1, asked),
                }
            },
            (BulkPhase::Noticing { ready }, BulkEvent::Proceed) => bulk_finish_exec(ready),
            _ => (BulkPhase::Finished, BulkAction::Done(BulkOutcome::NothingToHibernate)),
        };
        (BulkHibernation { dry_run, phase }, action)
    }
}

/// The phases in which the user is asked about, or lockfiles are generated
/// for, the projects that lack one.
pub open spec fn generation_phase(p: BulkPhaseModel) -> bool {
    p is Choosing || p is Asking || p is Generating || p is Reanalyzing
}

/// What holds of every phase that a bulk hibernation reaches from its start.
pub open spec fn bulk_inv(m: BulkModel) -> bool {
    &&& m.dry_run ==> !(m.phase is CheckingTerminal || generation_phase(m.phase))
    &&& match m.phase {
        BulkPhaseModel::Asking { missing, index, .. } => 0 <= index < missing.len(),
        BulkPhaseModel::Generating { missing, index, .. } => 0 <= index < missing.len(),
        BulkPhaseModel::Reanalyzing { missing, index, .. } => 0 <= index < missing.len(),
        _ => true,
    }
}

/// The first phase of a bulk hibernation is reachable.
pub proof fn lemma_bulk_inv_start(a: Seq<AnalysisModel>, dry_run: bool)
    ensures
        bulk_inv(BulkModel { dry_run, phase: bulk_start(a).0 }),
{
}

/// A bulk hibernation keeps its invariant on every accepted event.
pub proof fn lemma_bulk_inv_preserved(m: BulkModel, e: BulkEventModel)
    requires
        bulk_inv(m),
        bulk_accepts(m, e),
    ensures
        bulk_inv(BulkModel { dry_run: m.dry_run, phase: bulk_next(m, e).0 }),
{
}

/// No lockfile is generated in a dry run, nor without a terminal: a dry run
/// never checks the terminal, offers the menu, asks or generates; the menu
/// and the generation are entered only once the terminal check said yes; and
/// when input is not a terminal, the missing lockfiles are skipped with a
/// notice.
pub proof fn lemma_no_generation_without_terminal(m: BulkModel, e: BulkEventModel)
    requires
        bulk_inv(m),
        bulk_accepts(m, e),
    ensures
        ({
            let (next, act) = bulk_next(m, e);
            &&& m.dry_run ==> !(act is Generate || act is AskEach || act is AskBulkChoice || act is CheckTerminal)
            &&& (generation_phase(next) && !generation_phase(m.phase)) ==> m.phase is CheckingTerminal && e
                == BulkEventModel::Interactive(true)
            &&& act is Generate ==> generation_phase(m.phase)
            &&& (m.phase is CheckingTerminal && e == BulkEventModel::Interactive(false)) ==> next is Noticing
                && act is NoticeSkipGeneration
        }),
{
}

/// The projects found ready so far in a phase.
pub open spec fn phase_ready(p: BulkPhaseModel) -> Seq<ReadyModel> {
    match p {
        BulkPhaseModel::Summarizing { ready, .. } => ready,
        BulkPhaseModel::CheckingTerminal { ready, .. } => ready,
        BulkPhaseModel::Choosing { ready, .. } => ready,
        BulkPhaseModel::Asking { ready, .. } => ready,
        BulkPhaseModel::Generating { ready, .. } => ready,
        BulkPhaseModel::Reanalyzing { ready, .. } => ready,
        BulkPhaseModel::Noticing { ready } => ready,
        BulkPhaseModel::Finished => seq![],
    }
}

/// The projects that a step carries on: those handed over to hibernation, or
/// those still held.
pub open spec fn carried(next: BulkPhaseModel, act: BulkActionModel) -> Seq<ReadyModel> {
    match act {
        BulkActionModel::Hibernate(list) => list,
        _ => phase_ready(next),
    }
}

/// A project that lacked a lockfile joins the ready ones only after its
/// lockfile was generated successfully and its new analysis found it ready,
/// and it joins with that analysis.
pub proof fn lemma_missing_joins_only_after_generation(m: BulkModel, e: BulkEventModel)
    requires
        bulk_inv(m),
        bulk_accepts(m, e),
    ensures
        ({
            let (next, act) = bulk_next(m, e);
            &&& next is Reanalyzing ==> m.phase is Generating && e == BulkEventModel::LockfileGenerated(true)
            &&& carried(next, act) == phase_ready(m.phase) || (m.phase matches BulkPhaseModel::Reanalyzing {
                missing,
                index,
                ..
            } && e matches BulkEventModel::Reanalyzed(AnalysisModel::Ready(md)) && carried(next, act)
                == phase_ready(m.phase).push(ReadyModel { index: missing[index].index, metadata: md }))
        }),
{
}

/// A ready project is always hibernated: the projects found ready at the start
/// are those whose analysis found them ready, in order; each step keeps the
/// ready projects (new ones only join at the end); the end hands them all over
/// to hibernation, and says that there is nothing to hibernate only when no
/// project is ready.
pub proof fn lemma_ready_projects_hibernated(m: BulkModel, e: BulkEventModel)
    requires
        bulk_accepts(m, e),
    ensures
        ({
            let (next, act) = bulk_next(m, e);
            &&& phase_ready(m.phase).is_prefix_of(carried(next, act))
            &&& next is Finished ==> (act == BulkActionModel::Hibernate(phase_ready(m.phase)) || (m.phase is Reanalyzing
                && act is Hibernate) || (act == BulkActionModel::Done(BulkOutcome::NothingToHibernate) && phase_ready(
                m.phase,
            ).len() == 0))
        }),
{
    let (next, act) = bulk_next(m, e);
    let r = phase_ready(m.phase);
    assert(r.is_prefix_of(r)) by {
        assert(r =~= r.subrange(0, r.len() as int));
    }
    if let BulkPhaseModel::Reanalyzing { ready, missing, index, .. } = m.phase {
        if let BulkEventModel::Reanalyzed(AnalysisModel::Ready(md)) = e {
            let pushed = ready.push(ReadyModel { index: missing[index].index, metadata: md });
            assert(ready =~= pushed.subrange(0, ready.len() as int));
        }
    }
}

/// The ready projects with which a bulk hibernation begins are exactly those
/// whose analysis found them ready, in their order, and the projects it
/// offers lockfiles for are exactly those whose analysis found one missing.
pub proof fn lemma_start_sorts_projects(a: Seq<AnalysisModel>)
    ensures
        ({
            let (phase, act) = bulk_start(a);
            &&& phase is Summarizing ==> phase_ready(phase) == ready_of(a)
            &&& phase matches BulkPhaseModel::Summarizing { missing, .. } ==> missing == missing_of(a)
            &&& phase is Finished <==> ready_of(a).len() + missing_of(a).len() == 0
            &&& phase is Finished ==> act == BulkActionModel::Done(BulkOutcome::NothingToProcess)
        }),
{
}

/// Whether a phase works through the missing lockfiles asking about each
/// project (`Some(true)`), generating them all (`Some(false)`), or neither.
pub open spec fn missing_mode(p: BulkPhaseModel) -> Option<bool> {
    match p {
        BulkPhaseModel::Asking { .. } => Some(true),
        BulkPhaseModel::Generating { asked, .. } => Some(asked),
        BulkPhaseModel::Reanalyzing { asked, .. } => Some(asked),
        _ => None,
    }
}

/// The menu choice that an event brings, if it is the line typed at the menu.
pub open spec fn menu_choice(e: BulkEventModel) -> Option<BulkChoice> {
    match e {
        BulkEventModel::Choice(c) => Some(spec_bulk_choice(uppercased(trimmed(c)))),
        _ => None,
    }
}

/// Whether an event is a consenting answer to a per-project question.
pub open spec fn consenting(e: BulkEventModel) -> bool {
    match e {
        BulkEventModel::Answer(a) => spec_consent(trimmed(a), lowercased(trimmed(a))),
        _ => false,
    }
}

/// The project and mode of a generation action.
pub open spec fn generation(act: BulkActionModel) -> Option<(int, bool)> {
    match act {
        BulkActionModel::Generate { index, asked, .. } => Some((index, asked)),
        _ => None,
    }
}

/// The project that an `Asking` phase asks about.
pub open spec fn asked_project(p: BulkPhaseModel) -> Option<int> {
    match p {
        BulkPhaseModel::Asking { missing, index, .. } => Some(missing[index].index),
        _ => None,
    }
}

/// The menu choice keeps its word: once the user chose to be asked about each
/// project, every later project is asked about, and a lockfile is generated
/// in that mode only right after the user consented for that very project;
/// once the user chose to generate all, no project is asked about. Asking
/// starts only from the `L` choice, and generating without asking only from
/// the `A` choice.
pub proof fn lemma_choice_is_kept(m: BulkModel, e: BulkEventModel)
    requires
        bulk_inv(m),
        bulk_accepts(m, e),
    ensures
        ({
            let (next, act) = bulk_next(m, e);
            &&& (missing_mode(m.phase) is Some && missing_mode(next) is Some) ==> missing_mode(m.phase) == missing_mode(next)
            &&& (next is Asking && missing_mode(m.phase) is None) ==> m.phase is Choosing && menu_choice(e) == Some(
                BulkChoice::AskEach,
            )
            &&& (missing_mode(next) == Some(false) && missing_mode(m.phase) is None) ==> m.phase is Choosing && menu_choice(e)
                == Some(BulkChoice::GenerateAll)
            &&& (generation(act) is Some && generation(act).unwrap().1) ==> m.phase is Asking && consenting(e)
                && asked_project(m.phase) == Some(generation(act).unwrap().0)
            &&& (generation(act) is Some && !generation(act).unwrap().1) ==> missing_mode(m.phase) == Some(false) || (
                m.phase is Choosing && menu_choice(e) == Some(BulkChoice::GenerateAll))
            &&& act is AskEach ==> missing_mode(m.phase) == Some(true) || (m.phase is Choosing && menu_choice(e) == Some(
                BulkChoice::AskEach))
            &&& generation(act) is Some ==> missing_mode(next) == Some(generation(act).unwrap().1)
        }),
{
}

} // verus!
