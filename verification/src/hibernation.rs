use vstd::prelude::*;

use crate::ecosystem::{analysis_model, AnalysisError, AnalysisModel, MetadataModel, MissingLockfileError, PolyglotMetadata};
use crate::hibernate::{
    build_snapshot, checked_total, counted_sizes, effective_sizes, plan_hibernation, present_targets,
    spec_snapshot, total_size, DehydrateSnapshot, SnapshotModel, TargetState,
};
use crate::prompt::{is_consent, lowercased, spec_consent};
use crate::rehydrate::{get_safe_bin, spec_safe_bin};
use crate::text::{split_words, trimmed, whitespace_words};
use crate::text::{clone_strings, names_of};

verus! {

/// A decimal digit.
pub open spec fn is_digit(c: char) -> bool {
    '0' <= c <= '9'
}

pub open spec fn all_digits(s: Seq<char>) -> bool {
    forall|i: int| 0 <= i < s.len() ==> #[trigger] is_digit(s[i])
}

/// The year of an RFC 3339 time as chrono writes it: four digits, or for a
/// year outside 0 to 9999 a sign followed by at least four digits.
pub open spec fn rfc3339_year(y: Seq<char>) -> bool {
    ||| y.len() == 4 && all_digits(y)
    ||| y.len() >= 5 && (y[0] == '+' || y[0] == '-') && all_digits(y.drop_first())
}

/// Fractional seconds: none, or a dot and three, six or nine digits.
pub open spec fn rfc3339_fraction(f: Seq<char>) -> bool {
    f.len() == 0 || ((f.len() == 4 || f.len() == 7 || f.len() == 10) && f[0] == '.' && all_digits(f.drop_first()))
}

/// A UTC time in RFC 3339 as `DateTime<Utc>::to_rfc3339` writes it:
/// `YYYY-MM-DDTHH:MM:SS`, optional fractional seconds, then `+00:00`.
pub open spec fn utc_rfc3339(s: Seq<char>) -> bool {
    exists|k: int| #![trigger s.subrange(0, k)] {
        &&& rfc3339_year(s.subrange(0, k))
        &&& s.len() >= k + 21
        &&& s[k] == '-' && all_digits(s.subrange(k + 1, k + 3))
        &&& s[k + 3] == '-' && all_digits(s.subrange(k + 4, k + 6))
        &&& s[k + 6] == 'T' && all_digits(s.subrange(k + 7, k + 9))
        &&& s[k + 9] == ':' && all_digits(s.subrange(k + 10, k + 12))
        &&& s[k + 12] == ':' && all_digits(s.subrange(k + 13, k + 15))
        &&& rfc3339_fraction(s.subrange(k + 15, s.len() - 6))
        &&& s.subrange(s.len() - 6, s.len() as int) == seq!['+', '0', '0', ':', '0', '0']
    }
}

/// Reads the clock with `std::time::SystemTime::now`, converts it with
/// chrono's `From<SystemTime> for DateTime<Utc>` (which handles times before
/// the Unix epoch) and formats it with `DateTime::to_rfc3339`, which writes the
/// date, `T`, the time, the sub-second digits that are not zero, and the UTC
/// offset `+00:00`. Which instant is read is left unsaid. The conversion
/// panics only for a clock beyond chrono's range of about 262,000 years
/// around the epoch.
#[verifier::external_body]
fn current_timestamp() -> (t: String)
    ensures
        utc_rfc3339(t@),
{
    chrono::DateTime::<chrono::Utc>::from(std::time::SystemTime::now()).to_rfc3339()
}

/// Why hibernating a project failed.
#[derive(Debug)]
pub enum HibernationError {
    /// The project lacks a lockfile and nobody can be asked to generate it.
    NonInteractive(MissingLockfileError),
    /// The lockfile generator exited with an error.
    LockfileGenerationFailed,
    /// The project cannot be analysed.
    AnalysisFailed(AnalysisError),
}

pub enum HibernationErrorModel {
    NonInteractive { ecosystem: Seq<char>, generation_command: Seq<char> },
    LockfileGenerationFailed,
    AnalysisFailed(AnalysisModel),
}

impl View for HibernationError {
    type V = HibernationErrorModel;

    open spec fn view(&self) -> HibernationErrorModel {
        match self {
            HibernationError::NonInteractive(e) => HibernationErrorModel::NonInteractive {
                ecosystem: e.ecosystem@,
                generation_command: e.generation_command@,
            },
            HibernationError::LockfileGenerationFailed => HibernationErrorModel::LockfileGenerationFailed,
            HibernationError::AnalysisFailed(e) => HibernationErrorModel::AnalysisFailed(analysis_model(Err(*e))),
        }
    }
}

/// How hibernating a project ended.
#[derive(Debug)]
pub enum HibernationOutcome {
    /// Dry run of a project without lockfile: its generation would be offered.
    WouldOfferLockfile(String),
    /// The user declined to generate the missing lockfile.
    SkippedByUser,
    /// No heavy directory holds data.
    NothingToDelete,
    /// Dry run: these directories would be deleted, and the heavy directories
    /// found hold this many bytes.
    DryRun { deleted_paths: Vec<String>, saved_bytes: u64 },
    /// The snapshot was written and the heavy directories deleted.
    Hibernated { saved_bytes: u64 },
    Failed(HibernationError),
}

pub enum OutcomeModel {
    WouldOfferLockfile(Seq<char>),
    SkippedByUser,
    NothingToDelete,
    DryRun { deleted_paths: Seq<Seq<char>>, saved_bytes: u64 },
    Hibernated { saved_bytes: u64 },
    Failed(HibernationErrorModel),
}

impl View for HibernationOutcome {
    type V = OutcomeModel;

    open spec fn view(&self) -> OutcomeModel {
        match self {
            HibernationOutcome::WouldOfferLockfile(c) => OutcomeModel::WouldOfferLockfile(c@),
            HibernationOutcome::SkippedByUser => OutcomeModel::SkippedByUser,
            HibernationOutcome::NothingToDelete => OutcomeModel::NothingToDelete,
            HibernationOutcome::DryRun { deleted_paths, saved_bytes } => OutcomeModel::DryRun {
                deleted_paths: names_of(deleted_paths@),
                saved_bytes: *saved_bytes,
            },
            HibernationOutcome::Hibernated { saved_bytes } => OutcomeModel::Hibernated { saved_bytes: *saved_bytes },
            HibernationOutcome::Failed(e) => OutcomeModel::Failed(e@),
        }
    }
}

/// What the outside world reports back to the hibernation.
pub enum HibernationEvent {
    /// The analysis of the project's entries.
    Analyzed(Result<PolyglotMetadata, AnalysisError>),
    /// Whether standard input is a terminal.
    Interactive(bool),
    /// The line typed at the lockfile prompt.
    Answer(String),
    /// Whether the lockfile generator exited successfully.
    LockfileGenerated(bool),
    /// The size in bytes of each heavy directory, what was found at each
    /// one's path, and the time of measurement in RFC 3339.
    Measured { sizes: Vec<u64>, states: Vec<TargetState>, hibernated_at: String },
    /// Whether a heavy directory exists, and whether it is itself a symlink.
    Inspected { exists: bool, is_symlink: bool },
    /// The previous action was carried out.
    Proceed,
}

pub enum HibernationEventModel {
    Analyzed(AnalysisModel),
    Interactive(bool),
    Answer(Seq<char>),
    LockfileGenerated(bool),
    Measured { sizes: Seq<u64>, states: Seq<TargetState>, hibernated_at: Seq<char> },
    Inspected { exists: bool, is_symlink: bool },
    Proceed,
}

impl View for HibernationEvent {
    type V = HibernationEventModel;

    open spec fn view(&self) -> HibernationEventModel {
        match self {
            HibernationEvent::Analyzed(r) => HibernationEventModel::Analyzed(analysis_model(*r)),
            HibernationEvent::Interactive(b) => HibernationEventModel::Interactive(*b),
            HibernationEvent::Answer(a) => HibernationEventModel::Answer(a@),
            HibernationEvent::LockfileGenerated(b) => HibernationEventModel::LockfileGenerated(*b),
            HibernationEvent::Measured { sizes, states, hibernated_at } => HibernationEventModel::Measured {
                sizes: sizes@,
                states: states@,
                hibernated_at: hibernated_at@,
            },
            HibernationEvent::Inspected { exists, is_symlink } => HibernationEventModel::Inspected {
                exists: *exists,
                is_symlink: *is_symlink,
            },
            HibernationEvent::Proceed => HibernationEventModel::Proceed,
        }
    }
}

/// The measurement event for the given sizes and findings, stamped with the
/// current time in UTC RFC 3339.
pub fn measured(sizes: Vec<u64>, states: Vec<TargetState>) -> (e: HibernationEvent)
    ensures
        e matches HibernationEvent::Measured { sizes: s, states: k, hibernated_at: t } && s@ == sizes@
            && k@ == states@ && utc_rfc3339(t@),
{
    HibernationEvent::Measured { sizes, states, hibernated_at: current_timestamp() }
}

/// What the hibernation asks the outside world to do next.
pub enum HibernationAction {
    /// List the project's entries and analyse them.
    Analyze,
    /// Report whether standard input is a terminal.
    CheckTerminal,
    /// Offer to generate the missing lockfile with this command, and report the answer.
    OfferLockfile(String),
    /// Run this command in the project to generate the lockfile.
    GenerateLockfile(String),
    /// Measure each of these heavy directories, and tell what is at each one's path.
    Measure(Vec<String>),
    /// Write this snapshot into the project.
    WriteSnapshot(DehydrateSnapshot),
    /// Report whether this heavy directory exists and is a symlink.
    InspectTarget(String),
    /// Delete this heavy directory (a failure is reported, not fatal).
    RemoveTarget(String),
    /// Warn that this heavy directory is a symlink and leave it.
    SkipSymlink(String),
    /// Stop with this outcome.
    Done(HibernationOutcome),
}

pub enum HibernationActionModel {
    Analyze,
    CheckTerminal,
    OfferLockfile(Seq<char>),
    GenerateLockfile(Seq<char>),
    Measure(Seq<Seq<char>>),
    WriteSnapshot(SnapshotModel),
    InspectTarget(Seq<char>),
    RemoveTarget(Seq<char>),
    SkipSymlink(Seq<char>),
    Done(OutcomeModel),
}

impl View for HibernationAction {
    type V = HibernationActionModel;

    open spec fn view(&self) -> HibernationActionModel {
        match self {
            HibernationAction::Analyze => HibernationActionModel::Analyze,
            HibernationAction::CheckTerminal => HibernationActionModel::CheckTerminal,
            HibernationAction::OfferLockfile(c) => HibernationActionModel::OfferLockfile(c@),
            HibernationAction::GenerateLockfile(c) => HibernationActionModel::GenerateLockfile(c@),
            HibernationAction::Measure(t) => HibernationActionModel::Measure(names_of(t@)),
            HibernationAction::WriteSnapshot(s) => HibernationActionModel::WriteSnapshot(s@),
            HibernationAction::InspectTarget(t) => HibernationActionModel::InspectTarget(t@),
            HibernationAction::RemoveTarget(t) => HibernationActionModel::RemoveTarget(t@),
            HibernationAction::SkipSymlink(t) => HibernationActionModel::SkipSymlink(t@),
            HibernationAction::Done(o) => HibernationActionModel::Done(o@),
        }
    }
}

/// Where a hibernation stands; the name of each phase says what it waits for.
pub enum HibernationPhase {
    Analyzing,
    /// A lockfile is missing; waiting to learn whether input is interactive.
    CheckingTerminal { missing: MissingLockfileError },
    /// Waiting for the answer to the lockfile offer.
    Offering { missing: MissingLockfileError },
    /// Waiting for the lockfile generator.
    Generating,
    /// Waiting for the sizes of the heavy directories.
    Measuring { metadata: PolyglotMetadata },
    /// Waiting for the snapshot to be written.
    Writing { targets: Vec<String>, saved_bytes: u64 },
    /// Waiting for the inspection of heavy directory `index`.
    Inspecting { targets: Vec<String>, index: usize, saved_bytes: u64 },
    /// Waiting for heavy directory `index` to be removed or skipped.
    Clearing { targets: Vec<String>, index: usize, saved_bytes: u64 },
    Finished,
}

pub enum HibernationPhaseModel {
    Analyzing,
    CheckingTerminal { ecosystem: Seq<char>, generation_command: Seq<char> },
    Offering { ecosystem: Seq<char>, generation_command: Seq<char> },
    Generating,
    Measuring { metadata: MetadataModel },
    Writing { targets: Seq<Seq<char>>, saved_bytes: u64 },
    Inspecting { targets: Seq<Seq<char>>, index: int, saved_bytes: u64 },
    Clearing { targets: Seq<Seq<char>>, index: int, saved_bytes: u64 },
    Finished,
}

impl View for HibernationPhase {
    type V = HibernationPhaseModel;

    open spec fn view(&self) -> HibernationPhaseModel {
        match self {
            HibernationPhase::Analyzing => HibernationPhaseModel::Analyzing,
            HibernationPhase::CheckingTerminal { missing } => HibernationPhaseModel::CheckingTerminal {
                ecosystem: missing.ecosystem@,
                generation_command: missing.generation_command@,
            },
            HibernationPhase::Offering { missing } => HibernationPhaseModel::Offering {
                ecosystem: missing.ecosystem@,
                generation_command: missing.generation_command@,
            },
            HibernationPhase::Generating => HibernationPhaseModel::Generating,
            HibernationPhase::Measuring { metadata } => HibernationPhaseModel::Measuring { metadata: metadata@ },
            HibernationPhase::Writing { targets, saved_bytes } => HibernationPhaseModel::Writing {
                targets: names_of(targets@),
                saved_bytes: *saved_bytes,
            },
            HibernationPhase::Inspecting { targets, index, saved_bytes } => HibernationPhaseModel::Inspecting {
                targets: names_of(targets@),
                index: *index as int,
                saved_bytes: *saved_bytes,
            },
            HibernationPhase::Clearing { targets, index, saved_bytes } => HibernationPhaseModel::Clearing {
                targets: names_of(targets@),
                index: *index as int,
                saved_bytes: *saved_bytes,
            },
            HibernationPhase::Finished => HibernationPhaseModel::Finished,
        }
    }
}

/// The decisions of hibernating one project: analyse it (offering to generate
/// a missing lockfile), measure its heavy directories, write its snapshot and
/// delete the directories, or, in a dry run, only report.
pub struct HibernationMachine {
    dry_run: bool,
    phase: HibernationPhase,
}

pub struct HibernationModel {
    pub dry_run: bool,
    pub phase: HibernationPhaseModel,
}

impl View for HibernationMachine {
    type V = HibernationModel;

    closed spec fn view(&self) -> HibernationModel {
        HibernationModel { dry_run: self.dry_run, phase: self.phase@ }
    }
}

/// The phase and action with which heavy directory `index` is handled; past
/// the last one, the hibernation is done.
pub open spec fn enter_target(targets: Seq<Seq<char>>, index: int, saved: u64) -> (HibernationPhaseModel, HibernationActionModel) {
    if index < 0 || index >= targets.len() {
        (HibernationPhaseModel::Finished, HibernationActionModel::Done(OutcomeModel::Hibernated { saved_bytes: saved }))
    } else {
        (HibernationPhaseModel::Inspecting { targets, index, saved_bytes: saved }, HibernationActionModel::InspectTarget(targets[index]))
    }
}

pub open spec fn done(o: OutcomeModel) -> (HibernationPhaseModel, HibernationActionModel) {
    (HibernationPhaseModel::Finished, HibernationActionModel::Done(o))
}

/// The phase and action that follow a phase on an event.
pub open spec fn hibernation_next(phase: HibernationPhaseModel, e: HibernationEventModel, dry_run: bool) -> (HibernationPhaseModel, HibernationActionModel) {
    match (phase, e) {
        (HibernationPhaseModel::Analyzing, HibernationEventModel::Analyzed(a)) => match a {
            AnalysisModel::Ready(m) => (HibernationPhaseModel::Measuring { metadata: m }, HibernationActionModel::Measure(m.targets_to_delete)),
            AnalysisModel::MissingLockfile { ecosystem, generation_command } => if dry_run {
                done(OutcomeModel::WouldOfferLockfile(generation_command))
            } else {
                (HibernationPhaseModel::CheckingTerminal { ecosystem, generation_command }, HibernationActionModel::CheckTerminal)
            },
            other => done(OutcomeModel::Failed(HibernationErrorModel::AnalysisFailed(other))),
        },
        (HibernationPhaseModel::CheckingTerminal { ecosystem, generation_command }, HibernationEventModel::Interactive(tty)) => if tty {
            (HibernationPhaseModel::Offering { ecosystem, generation_command }, HibernationActionModel::OfferLockfile(generation_command))
        } else {
            done(OutcomeModel::Failed(HibernationErrorModel::NonInteractive { ecosystem, generation_command }))
        },
        (HibernationPhaseModel::Offering { ecosystem, generation_command }, HibernationEventModel::Answer(a)) => if spec_consent(trimmed(a), lowercased(trimmed(a))) {
            (HibernationPhaseModel::Generating, HibernationActionModel::GenerateLockfile(generation_command))
        } else {
            done(OutcomeModel::SkippedByUser)
        },
        (HibernationPhaseModel::Generating, HibernationEventModel::LockfileGenerated(ok)) => if ok {
            (HibernationPhaseModel::Analyzing, HibernationActionModel::Analyze)
        } else {
            done(OutcomeModel::Failed(HibernationErrorModel::LockfileGenerationFailed))
        },
        (HibernationPhaseModel::Measuring { metadata }, HibernationEventModel::Measured { sizes, states, hibernated_at }) => {
            let deleted = present_targets(metadata.targets_to_delete, states);
            let saved = total_size(effective_sizes(sizes, states)) as u64;
            if saved == 0 {
                done(OutcomeModel::NothingToDelete)
            } else if dry_run {
                done(OutcomeModel::DryRun { deleted_paths: deleted, saved_bytes: saved })
            } else {
                (
                    HibernationPhaseModel::Writing { targets: metadata.targets_to_delete, saved_bytes: saved },
                    HibernationActionModel::WriteSnapshot(spec_snapshot(hibernated_at, metadata, deleted, saved)),
                )
            }
        },
        (HibernationPhaseModel::Writing { targets, saved_bytes }, HibernationEventModel::Proceed) => enter_target(targets, 0, saved_bytes),
        (HibernationPhaseModel::Inspecting { targets, index, saved_bytes }, HibernationEventModel::Inspected { exists, is_symlink }) => if !exists {
            enter_target(targets, index + 1, saved_bytes)
        } else if is_symlink {
            (HibernationPhaseModel::Clearing { targets, index, saved_bytes }, HibernationActionModel::SkipSymlink(targets[index]))
        } else {
            (HibernationPhaseModel::Clearing { targets, index, saved_bytes }, HibernationActionModel::RemoveTarget(targets[index]))
        },
        (HibernationPhaseModel::Clearing { targets, index, saved_bytes }, HibernationEventModel::Proceed) => enter_target(targets, index + 1, saved_bytes),
        _ => done(OutcomeModel::NothingToDelete),
    }
}

/// Whether a phase waits for this kind of event; a measurement must give one
/// size and one finding per heavy directory, the sizes that count adding up to
/// at most `u64::MAX` bytes.
pub open spec fn hibernation_accepts(phase: HibernationPhaseModel, e: HibernationEventModel) -> bool {
    match (phase, e) {
        (HibernationPhaseModel::Analyzing, HibernationEventModel::Analyzed(_)) => true,
        (HibernationPhaseModel::CheckingTerminal { .. }, HibernationEventModel::Interactive(_)) => true,
        (HibernationPhaseModel::Offering { .. }, HibernationEventModel::Answer(_)) => true,
        (HibernationPhaseModel::Generating, HibernationEventModel::LockfileGenerated(_)) => true,
        (HibernationPhaseModel::Measuring { metadata }, HibernationEventModel::Measured { sizes, states, .. }) => sizes.len()
            == metadata.targets_to_delete.len() && states.len() == sizes.len() && total_size(effective_sizes(sizes, states)) <= u64::MAX,
        (HibernationPhaseModel::Writing { .. }, HibernationEventModel::Proceed) => true,
        (HibernationPhaseModel::Inspecting { targets, index, .. }, HibernationEventModel::Inspected { .. }) => 0 <= index
            < targets.len(),
        (HibernationPhaseModel::Clearing { .. }, HibernationEventModel::Proceed) => true,
        _ => false,
    }
}

fn enter_target_exec(targets: Vec<String>, index: usize, saved: u64) -> (r: (HibernationPhase, HibernationAction))
    ensures
        (r.0@, r.1@) == enter_target(names_of(targets@), index as int, saved),
{
    if index >= targets.len() {
        (HibernationPhase::Finished, HibernationAction::Done(HibernationOutcome::Hibernated { saved_bytes: saved }))
    } else {
        let t = targets[index].clone();
        (HibernationPhase::Inspecting { targets, index, saved_bytes: saved }, HibernationAction::InspectTarget(t))
    }
}

fn finished(o: HibernationOutcome) -> (r: (HibernationPhase, HibernationAction))
    ensures
        (r.0@, r.1@) == done(o@),
{
    (HibernationPhase::Finished, HibernationAction::Done(o))
}

impl HibernationMachine {
    /// A hibernation begins by analysing the project.
    pub fn start(dry_run: bool) -> (r: (HibernationMachine, HibernationAction))
        ensures
            r.0@ == (HibernationModel { dry_run, phase: HibernationPhaseModel::Analyzing }),
            r.1@ == HibernationActionModel::Analyze,
    {
        (HibernationMachine { dry_run, phase: HibernationPhase::Analyzing }, HibernationAction::Analyze)
    }

    /// Whether the machine waits for this event.
    pub fn accepts(&self, e: &HibernationEvent) -> (r: bool)
        ensures
            r == hibernation_accepts(self@.phase, e@),
    {
        match (&self.phase, e) {
            (HibernationPhase::Analyzing, HibernationEvent::Analyzed(_)) => true,
            (HibernationPhase::CheckingTerminal { .. }, HibernationEvent::Interactive(_)) => true,
            (HibernationPhase::Offering { .. }, HibernationEvent::Answer(_)) => true,
            (HibernationPhase::Generating, HibernationEvent::LockfileGenerated(_)) => true,
            (HibernationPhase::Measuring { metadata }, HibernationEvent::Measured { sizes, states, .. }) => {
                sizes.len() == metadata.targets_to_delete.len() && states.len() == sizes.len()
                    && checked_total(&counted_sizes(sizes, states)).is_some()
            },
            (HibernationPhase::Writing { .. }, HibernationEvent::Proceed) => true,
            (HibernationPhase::Inspecting { targets, index, .. }, HibernationEvent::Inspected { .. }) => *index < targets.len(),
            (HibernationPhase::Clearing { .. }, HibernationEvent::Proceed) => true,
            _ => false,
        }
    }

    /// Takes the outside world's report of the last action and decides what
    /// comes next.
    pub fn step(self, e: HibernationEvent) -> (r: (HibernationMachine, HibernationAction))
        requires
            hibernation_accepts(self@.phase, e@),
        ensures
            r.0@.dry_run == self@.dry_run,
            (r.0@.phase, r.1@) == hibernation_next(self@.phase, e@, self@.dry_run),
    {
        let dry_run = self.dry_run;
        let (phase, action) = match (self.phase, e) {
            (HibernationPhase::Analyzing, HibernationEvent::Analyzed(a)) => match a {
                Ok(metadata) => {
                    let targets = clone_strings(&metadata.targets_to_delete);
                    (HibernationPhase::Measuring { metadata }, HibernationAction::Measure(targets))
                },
                Err(AnalysisError::MissingLockfile(missing)) => if dry_run {
                    finished(HibernationOutcome::WouldOfferLockfile(missing.generation_command))
                } else {
                    (HibernationPhase::CheckingTerminal { missing }, HibernationAction::CheckTerminal)
                },
                Err(other) => finished(HibernationOutcome::Failed(HibernationError::AnalysisFailed(other))),
            },
            (HibernationPhase::CheckingTerminal { missing }, HibernationEvent::Interactive(tty)) => if tty {
                let c = missing.generation_command.clone();
                (HibernationPhase::Offering { missing }, HibernationAction::OfferLockfile(c))
            } else {
                finished(HibernationOutcome::Failed(HibernationError::NonInteractive(missing)))
            },
            (HibernationPhase::Offering { missing }, HibernationEvent::Answer(a)) => if is_consent(a.as_str()) {
                (HibernationPhase::Generating, HibernationAction::GenerateLockfile(missing.generation_command))
            } else {
                finished(HibernationOutcome::SkippedByUser)
            },
            (HibernationPhase::Generating, HibernationEvent::LockfileGenerated(ok)) => if ok {
                (HibernationPhase::Analyzing, HibernationAction::Analyze)
            } else {
                finished(HibernationOutcome::Failed(HibernationError::LockfileGenerationFailed))
            },
            (HibernationPhase::Measuring { metadata }, HibernationEvent::Measured { sizes, states, hibernated_at }) => {
                let plan = plan_hibernation(&metadata.targets_to_delete, &sizes, &states);
                if plan.total_saved_bytes == 0 {
                    finished(HibernationOutcome::NothingToDelete)
                } else if dry_run {
                    finished(HibernationOutcome::DryRun { deleted_paths: plan.deleted_paths, saved_bytes: plan.total_saved_bytes })
                } else {
                    let snapshot = build_snapshot(hibernated_at, &metadata, &plan);
                    let targets = clone_strings(&metadata.targets_to_delete);
                    (HibernationPhase::Writing { targets, saved_bytes: plan.total_saved_bytes }, HibernationAction::WriteSnapshot(snapshot))
                }
            },
            (HibernationPhase::Writing { targets, saved_bytes }, HibernationEvent::Proceed) => enter_target_exec(targets, 0, saved_bytes),
            (HibernationPhase::Inspecting { targets, index, saved_bytes }, HibernationEvent::Inspected { exists, is_symlink }) => if index >= targets.len() {
                finished(HibernationOutcome::Hibernated { saved_bytes })
            } else if !exists {
                enter_target_exec(targets, index + 1, saved_bytes)
            } else if is_symlink {
                let t = targets[index].clone();
                (HibernationPhase::Clearing { targets, index, saved_bytes }, HibernationAction::SkipSymlink(t))
            } else {
                let t = targets[index].clone();
                (HibernationPhase::Clearing { targets, index, saved_bytes }, HibernationAction::RemoveTarget(t))
            },
            (HibernationPhase::Clearing { targets, index, saved_bytes }, HibernationEvent::Proceed) => {
                if index >= targets.len() {
                    finished(HibernationOutcome::Hibernated { saved_bytes })
                } else {
                    enter_target_exec(targets, index + 1, saved_bytes)
                }
            },
            _ => finished(HibernationOutcome::NothingToDelete),
        };
        (HibernationMachine { dry_run, phase }, action)
    }
}

/// The phases in which heavy directories are deleted.
pub open spec fn deleting(phase: HibernationPhaseModel) -> bool {
    phase is Inspecting || phase is Clearing
}

/// What holds of every phase that a hibernation reaches from its start.
pub open spec fn hibernation_inv(phase: HibernationPhaseModel, dry_run: bool) -> bool {
    &&& dry_run ==> (phase is Analyzing || phase is Measuring || phase is Finished)
    &&& match phase {
        HibernationPhaseModel::Inspecting { targets, index, .. } => 0 <= index < targets.len(),
        HibernationPhaseModel::Clearing { targets, index, .. } => 0 <= index < targets.len(),
        _ => true,
    }
}

/// The first phase of a hibernation is reachable.
pub proof fn lemma_hibernation_inv_start(dry_run: bool)
    ensures
        hibernation_inv(HibernationPhaseModel::Analyzing, dry_run),
{
}

/// The machine keeps its invariant on every accepted event.
pub proof fn lemma_hibernation_inv_preserved(phase: HibernationPhaseModel, e: HibernationEventModel, dry_run: bool)
    requires
        hibernation_inv(phase, dry_run),
        hibernation_accepts(phase, e),
    ensures
        hibernation_inv(hibernation_next(phase, e, dry_run).0, dry_run),
{
}

/// Dry run: a dry run writes nothing, deletes nothing, runs no lockfile
/// generator and asks nothing; it only analyses, measures and reports.
pub proof fn lemma_dry_run_changes_nothing(phase: HibernationPhaseModel, e: HibernationEventModel)
    requires
        hibernation_inv(phase, true),
        hibernation_accepts(phase, e),
    ensures
        ({
            let a = hibernation_next(phase, e, true).1;
            a is Analyze || a is Measure || a is Done
        }),
{
}

/// Lockfile rule: analysis that finds a project not ready (a missing
/// lockfile, among others) never leads to measuring, writing or deleting;
/// only an analysis that finds it ready does, and with its own metadata.
pub proof fn lemma_only_ready_projects_proceed(a: AnalysisModel, dry_run: bool)
    ensures
        ({
            let (next, act) = hibernation_next(HibernationPhaseModel::Analyzing, HibernationEventModel::Analyzed(a), dry_run);
            &&& (next is Measuring) <==> (a is Ready)
            &&& a matches AnalysisModel::Ready(m) ==> next == (HibernationPhaseModel::Measuring { metadata: m })
                && act == HibernationActionModel::Measure(m.targets_to_delete)
            &&& !(a is Ready) ==> !deleting(next) && !(next is Writing)
        }),
{
}

/// The heavy directories that a deletion phase works through.
pub open spec fn deletion_targets(phase: HibernationPhaseModel) -> Seq<Seq<char>> {
    match phase {
        HibernationPhaseModel::Writing { targets, .. } => targets,
        HibernationPhaseModel::Inspecting { targets, .. } => targets,
        HibernationPhaseModel::Clearing { targets, .. } => targets,
        _ => seq![],
    }
}

/// Snapshot first: deletion begins only once the snapshot was written (the
/// outside world proceeds from the `Writing` phase only after writing it).
/// The snapshot lists the directories found present (there, and not
/// symlinks), which are the ones deleted, with the bytes that the directories
/// found there hold, stamped with the time that the measurement carries; the
/// deletion then works through every heavy directory of the project.
pub proof fn lemma_snapshot_before_deletion(phase: HibernationPhaseModel, e: HibernationEventModel, dry_run: bool)
    requires
        hibernation_accepts(phase, e),
    ensures
        ({
            let (next, act) = hibernation_next(phase, e, dry_run);
            &&& (deleting(next) && !deleting(phase)) ==> phase is Writing && e is Proceed
                && deletion_targets(next) == deletion_targets(phase)
            &&& (deleting(next) && deleting(phase)) ==> deletion_targets(next) == deletion_targets(phase)
            &&& act is RemoveTarget ==> deleting(phase)
            &&& act matches HibernationActionModel::WriteSnapshot(snap) ==> phase matches HibernationPhaseModel::Measuring { metadata }
                && e matches HibernationEventModel::Measured { sizes, states, hibernated_at }
                && snap == spec_snapshot(
                    hibernated_at,
                    metadata,
                    present_targets(metadata.targets_to_delete, states),
                    total_size(effective_sizes(sizes, states)) as u64,
                )
                && next == (HibernationPhaseModel::Writing {
                    targets: metadata.targets_to_delete,
                    saved_bytes: snap.space_saved_bytes,
                })
        }),
{
}

/// Symlink protection: a heavy directory that is a symlink is never deleted,
/// and is skipped with an alert when the deletion reaches it; the directory
/// deleted is always the one being inspected; and each heavy directory that
/// is there and is not a symlink when inspected is deleted.
pub proof fn lemma_symlinks_never_deleted(phase: HibernationPhaseModel, e: HibernationEventModel, dry_run: bool)
    requires
        hibernation_accepts(phase, e),
    ensures
        ({
            let act = hibernation_next(phase, e, dry_run).1;
            &&& (e matches HibernationEventModel::Inspected { is_symlink, .. } && is_symlink) ==> !(act is RemoveTarget)
            &&& phase matches HibernationPhaseModel::Inspecting { targets, index, .. } ==> (e == (HibernationEventModel::Inspected {
                exists: true,
                is_symlink: true,
            }) ==> act == HibernationActionModel::SkipSymlink(targets[index]))
            &&& act matches HibernationActionModel::RemoveTarget(t) ==> phase matches HibernationPhaseModel::Inspecting { targets, index, .. }
                && t == targets[index] && e == (HibernationEventModel::Inspected { exists: true, is_symlink: false })
            &&& phase matches HibernationPhaseModel::Inspecting { targets, index, .. } ==> (e == (HibernationEventModel::Inspected {
                exists: true,
                is_symlink: false,
            }) ==> act == HibernationActionModel::RemoveTarget(targets[index]))
        }),
{
}

/// Every listed directory is taken in turn: the deletion starts with the
/// first one, and each one handled leads to the next, until the last.
pub proof fn lemma_every_listed_target_visited(targets: Seq<Seq<char>>, index: int, saved: u64)
    requires
        0 <= index,
    ensures
        enter_target(targets, index, saved).1 == (if index < targets.len() {
            HibernationActionModel::InspectTarget(targets[index])
        } else {
            HibernationActionModel::Done(OutcomeModel::Hibernated { saved_bytes: saved })
        }),
{
}

/// The program and arguments that run a lockfile generation command: its
/// first word, run natively (on Windows through the tool's `.cmd` script,
/// never through a shell), with the remaining words as arguments.
pub open spec fn spec_lockfile_invocation(words: Seq<Seq<char>>, windows: bool) -> (Seq<char>, Seq<Seq<char>>) {
    (spec_safe_bin(words[0], windows), words.drop_first())
}

/// The program and arguments that run a lockfile generation command, taken
/// from its words.
pub fn invocation_of_words(words: &Vec<String>, windows: bool) -> (r: (String, Vec<String>))
    requires
        words.len() > 0,
    ensures
        (r.0@, names_of(r.1@)) == spec_lockfile_invocation(names_of(words@), windows),
{
    let program = get_safe_bin(words[0].as_str(), windows);
    let mut args: Vec<String> = Vec::new();
    let mut i: usize = 1;
    while i < words.len()
        invariant
            1 <= i <= words.len(),
            names_of(args@) =~= names_of(words@).subrange(1, i as int),
        decreases words.len() - i,
    {
        let ghost before = names_of(args@);
        args.push(words[i].clone());
        assert(names_of(args@) =~= before.push(words@[i as int]@));
        assert(names_of(words@).subrange(1, i + 1) =~= names_of(words@).subrange(1, i as int).push(words@[i as int]@));
        i = i + 1;
    }
    assert(names_of(words@).drop_first() =~= names_of(words@).subrange(1, words@.len() as int));
    (program, args)
}

/// The program and arguments that run a lockfile generation command, which
/// must have at least one word.
pub fn lockfile_invocation(command: &str, windows: bool) -> (r: (String, Vec<String>))
    requires
        whitespace_words(command@).len() > 0,
    ensures
        (r.0@, names_of(r.1@)) == spec_lockfile_invocation(whitespace_words(command@), windows),
{
    let words = split_words(command);
    invocation_of_words(&words, windows)
}

} // verus!
