use vstd::prelude::*;

use crate::ecosystem::{EcosystemType, PolyglotMetadata, MetadataModel};
use crate::text::{clone_strings, names_of};

verus! {

/// The record left in a hibernated project: what was deleted and how to
/// reinstall it.
#[derive(Debug)]
pub struct DehydrateSnapshot {
    pub hibernated_at: String,
    pub ecosystems: Vec<String>,
    pub package_managers: Vec<String>,
    pub install_commands: Vec<String>,
    pub deleted_paths: Vec<String>,
    pub space_saved_bytes: u64,
}

/// The mathematical content of a snapshot.
pub struct SnapshotModel {
    pub hibernated_at: Seq<char>,
    pub ecosystems: Seq<Seq<char>>,
    pub package_managers: Seq<Seq<char>>,
    pub install_commands: Seq<Seq<char>>,
    pub deleted_paths: Seq<Seq<char>>,
    pub space_saved_bytes: u64,
}

impl View for DehydrateSnapshot {
    type V = SnapshotModel;

    open spec fn view(&self) -> SnapshotModel {
        SnapshotModel {
            hibernated_at: self.hibernated_at@,
            ecosystems: names_of(self.ecosystems@),
            package_managers: names_of(self.package_managers@),
            install_commands: names_of(self.install_commands@),
            deleted_paths: names_of(self.deleted_paths@),
            space_saved_bytes: self.space_saved_bytes,
        }
    }
}

/// What a measurement found at a heavy directory's path.
#[derive(Clone, Copy, Debug, PartialEq, Eq, Structural)]
pub enum TargetState {
    /// Nothing is there.
    Absent,
    /// The path is a symlink; it is never deleted.
    Symlink,
    /// The directory is there and is not a symlink; it is deleted.
    Present,
}

/// What hibernating a project deletes and saves: the heavy directories that
/// are there and are not symlinks, which the snapshot lists and which are then
/// deleted, and the bytes that the heavy directories found there hold together.
pub struct HibernationPlan {
    pub deleted_paths: Vec<String>,
    pub total_saved_bytes: u64,
}

/// The sum of the sizes.
pub open spec fn total_size(sizes: Seq<u64>) -> int
    decreases sizes.len(),
{
    if sizes.len() == 0 {
        0
    } else {
        total_size(sizes.drop_last()) + sizes.last()
    }
}

/// The targets that were found present (there, and not symlinks), in their order.
pub open spec fn present_targets(targets: Seq<Seq<char>>, states: Seq<TargetState>) -> Seq<Seq<char>>
    decreases targets.len(),
{
    if targets.len() == 0 {
        seq![]
    } else {
        let rest = present_targets(targets.drop_last(), states.drop_last());
        if states.last() == TargetState::Present {
            rest.push(targets.last())
        } else {
            rest
        }
    }
}

proof fn lemma_total_size_monotone(sizes: Seq<u64>, i: int)
    requires
        0 <= i <= sizes.len(),
    ensures
        0 <= total_size(sizes.subrange(0, i)) <= total_size(sizes),
    decreases sizes.len(),
{
    if sizes.len() > 0 {
        if i == sizes.len() {
            assert(sizes.subrange(0, i) =~= sizes);
            lemma_total_size_monotone(sizes.drop_last(), i - 1);
            assert(sizes.drop_last().subrange(0, i - 1) =~= sizes.drop_last());
        } else {
            lemma_total_size_monotone(sizes.drop_last(), i);
            assert(sizes.drop_last().subrange(0, i) =~= sizes.subrange(0, i));
        }
    }
}

/// The sizes that count: a heavy directory that is absent counts for
/// nothing; one that is there counts with its size, symlink or not.
pub open spec fn effective_sizes(sizes: Seq<u64>, states: Seq<TargetState>) -> Seq<u64> {
    Seq::new(sizes.len(), |i: int| if states[i] == TargetState::Absent { 0u64 } else { sizes[i] })
}

/// The sizes that count.
pub fn counted_sizes(sizes: &Vec<u64>, states: &Vec<TargetState>) -> (r: Vec<u64>)
    requires
        states.len() == sizes.len(),
    ensures
        r@ == effective_sizes(sizes@, states@),
{
    let mut r: Vec<u64> = Vec::new();
    let mut i: usize = 0;
    while i < sizes.len()
        invariant
            i <= sizes.len(),
            states.len() == sizes.len(),
            r@ =~= effective_sizes(sizes@, states@).subrange(0, i as int),
        decreases sizes.len() - i,
    {
        let counted: u64 = match states[i] {
            TargetState::Absent => 0u64,
            _ => sizes[i],
        };
        r.push(counted);
        i = i + 1;
    }
    r
}

/// Plans the hibernation of a project from what was found at each of its
/// heavy directories and the measured size of each: the directories present
/// (there, and not symlinks) are the ones recorded and deleted, and the sizes
/// of all the directories found there are added up.
pub fn plan_hibernation(targets: &Vec<String>, sizes: &Vec<u64>, states: &Vec<TargetState>) -> (plan: HibernationPlan)
    requires
        sizes.len() == targets.len(),
        states.len() == targets.len(),
        total_size(effective_sizes(sizes@, states@)) <= u64::MAX,
    ensures
        names_of(plan.deleted_paths@) == present_targets(names_of(targets@), states@),
        plan.total_saved_bytes == total_size(effective_sizes(sizes@, states@)),
{
    let counted = counted_sizes(sizes, states);
    let ghost eff = effective_sizes(sizes@, states@);
    let mut deleted: Vec<String> = Vec::new();
    let mut total: u64 = 0;
    let mut i: usize = 0;
    proof {
        assert(names_of(deleted@) =~= seq![]);
        assert(eff.subrange(0, 0) =~= seq![]);
        assert(names_of(targets@).subrange(0, 0) =~= seq![]);
        assert(states@.subrange(0, 0) =~= seq![]);
    }
    while i < targets.len()
        invariant
            i <= targets.len(),
            sizes.len() == targets.len(),
            states.len() == targets.len(),
            counted@ == eff,
            eff.len() == targets.len(),
            total_size(eff) <= u64::MAX,
            total == total_size(eff.subrange(0, i as int)),
            names_of(deleted@) == present_targets(names_of(targets@).subrange(0, i as int), states@.subrange(0, i as int)),
        decreases targets.len() - i,
    {
        let ghost before = names_of(deleted@);
        proof {
            let s = eff.subrange(0, i + 1);
            let t = names_of(targets@).subrange(0, i + 1);
            let k = states@.subrange(0, i + 1);
            assert(s.drop_last() =~= eff.subrange(0, i as int));
            assert(t.drop_last() =~= names_of(targets@).subrange(0, i as int));
            assert(k.drop_last() =~= states@.subrange(0, i as int));
            assert(s.last() == eff[i as int]);
            assert(t.last() == targets@[i as int]@);
            assert(k.last() == states@[i as int]);
            lemma_total_size_monotone(eff, i + 1);
        }
        total = total + counted[i];
        match states[i] {
            TargetState::Present => {
                deleted.push(targets[i].clone());
                assert(names_of(deleted@) =~= before.push(targets@[i as int]@));
            },
            _ => {},
        }
        i = i + 1;
    }
    proof {
        assert(eff.subrange(0, eff.len() as int) =~= eff);
        assert(states@.subrange(0, states@.len() as int) =~= states@);
        assert(names_of(targets@).subrange(0, targets@.len() as int) =~= names_of(targets@));
    }
    HibernationPlan { deleted_paths: deleted, total_saved_bytes: total }
}

/// The names of the ecosystems, as recorded in a snapshot.
pub open spec fn ecosystem_names(ecos: Seq<EcosystemType>) -> Seq<Seq<char>> {
    ecos.map_values(|e: EcosystemType| e.spec_name())
}

/// The snapshot that records a planned hibernation.
pub open spec fn spec_snapshot(hibernated_at: Seq<char>, m: MetadataModel, deleted_paths: Seq<Seq<char>>, saved: u64) -> SnapshotModel {
    SnapshotModel {
        hibernated_at,
        ecosystems: ecosystem_names(m.ecosystems),
        package_managers: m.package_managers,
        install_commands: m.install_commands,
        deleted_paths,
        space_saved_bytes: saved,
    }
}

/// Builds the snapshot of a planned hibernation taken at `hibernated_at`.
pub fn build_snapshot(hibernated_at: String, metadata: &PolyglotMetadata, plan: &HibernationPlan) -> (s: DehydrateSnapshot)
    ensures
        s@ == spec_snapshot(hibernated_at@, metadata@, names_of(plan.deleted_paths@), plan.total_saved_bytes),
{
    let mut names: Vec<String> = Vec::new();
    let mut i: usize = 0;
    while i < metadata.ecosystems.len()
        invariant
            i <= metadata.ecosystems.len(),
            names_of(names@) =~= ecosystem_names(metadata.ecosystems@).subrange(0, i as int),
        decreases metadata.ecosystems.len() - i,
    {
        let ghost before = names_of(names@);
        let n = metadata.ecosystems[i].name();
        names.push(n);
        assert(names_of(names@) =~= before.push(n@));
        assert(ecosystem_names(metadata.ecosystems@).subrange(0, i + 1) =~= ecosystem_names(metadata.ecosystems@).subrange(0, i as int).push(metadata.ecosystems@[i as int].spec_name()));
        i = i + 1;
    }
    proof {
        assert(ecosystem_names(metadata.ecosystems@).subrange(0, i as int) =~= ecosystem_names(metadata.ecosystems@));
    }
    DehydrateSnapshot {
        hibernated_at,
        ecosystems: names,
        package_managers: clone_strings(&metadata.package_managers),
        install_commands: clone_strings(&metadata.install_commands),
        deleted_paths: clone_strings(&plan.deleted_paths),
        space_saved_bytes: plan.total_saved_bytes,
    }
}

/// Whole megabytes (of 1024 * 1024 bytes) in a number of bytes, as reports show them.
pub fn megabytes(bytes: u64) -> (mb: u64)
    ensures
        mb == bytes / 1024 / 1024,
{
    bytes / 1024 / 1024
}

/// The sum of the sizes, or `None` when it does not fit in a `u64`.
pub fn checked_total(sizes: &Vec<u64>) -> (r: Option<u64>)
    ensures
        r matches Some(t) ==> t == total_size(sizes@),
        r is None <==> total_size(sizes@) > u64::MAX,
{
    let mut total: u64 = 0;
    let mut i: usize = 0;
    proof {
        assert(sizes@.subrange(0, 0) =~= seq![]);
    }
    while i < sizes.len()
        invariant
            i <= sizes.len(),
            total == total_size(sizes@.subrange(0, i as int)),
        decreases sizes.len() - i,
    {
        proof {
            let s = sizes@.subrange(0, i + 1);
            assert(s.drop_last() =~= sizes@.subrange(0, i as int));
        }
        match total.checked_add(sizes[i]) {
            Some(t) => total = t,
            None => {
                proof {
                    lemma_total_size_monotone(sizes@, i + 1);
                }
                return None;
            },
        }
        i = i + 1;
    }
    proof {
        assert(sizes@.subrange(0, sizes@.len() as int) =~= sizes@);
    }
    Some(total)
}

} // verus!
