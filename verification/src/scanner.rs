use vstd::prelude::*;

use crate::text::{names_of, str_eq};

verus! {

/// Finds stale projects: directories holding a project marker file whose
/// source files have not been modified for `stale_days` days.
pub struct Scanner {
    stale_days: u32,
    max_depth: usize,
}

/// A file met while walking a directory tree: its name and the path of the
/// directory that holds it, when it has one.
pub struct WalkedFile {
    pub name: String,
    pub parent: Option<String>,
}

/// What the scanner learns of a candidate project directory: the modification
/// times of its source files, in nanoseconds relative to the Unix epoch
/// (negative before it), and whether it already holds a hibernation snapshot.
pub struct ProjectActivity {
    pub dir: String,
    pub modified_times: Vec<i128>,
    pub hibernated: bool,
}

/// The file names that mark the root of a project.
pub open spec fn spec_is_project_marker(name: Seq<char>) -> bool {
    name == "package.json"@ || name == "Cargo.toml"@ || name == "requirements.txt"@ || name
        == "pyproject.toml"@
}

/// Whether a file name marks the root of a project.
pub fn is_project_marker(name: &str) -> (r: bool)
    ensures
        r == spec_is_project_marker(name@),
{
    str_eq(name, "package.json") || str_eq(name, "Cargo.toml") || str_eq(name, "requirements.txt")
        || str_eq(name, "pyproject.toml")
}

/// The entry names that a walk skips: dependency caches, version control and
/// editor metadata.
pub open spec fn spec_is_ignored_entry(name: Seq<char>) -> bool {
    name == "node_modules"@ || name == "target"@ || name == "venv"@ || name == ".venv"@ || name
        == ".git"@ || name == ".idea"@ || name == ".vscode"@ || name == ".DS_Store"@
}

/// Whether a walk must skip an entry of this name.
pub fn is_ignored_entry(name: &str) -> (r: bool)
    ensures
        r == spec_is_ignored_entry(name@),
{
    str_eq(name, "node_modules") || str_eq(name, "target") || str_eq(name, "venv") || str_eq(
        name,
        ".venv",
    ) || str_eq(name, ".git") || str_eq(name, ".idea") || str_eq(name, ".vscode") || str_eq(
        name,
        ".DS_Store",
    )
}

/// The directories that hold a marker file, in the order the files were met.
pub open spec fn marker_parents(files: Seq<WalkedFile>) -> Seq<Seq<char>>
    decreases files.len(),
{
    if files.len() == 0 {
        seq![]
    } else {
        let rest = marker_parents(files.drop_last());
        let f = files.last();
        if spec_is_project_marker(f.name@) && f.parent is Some {
            rest.push(f.parent->0@)
        } else {
            rest
        }
    }
}

/// The sequence without repetitions, each element where it first occurs.
pub open spec fn first_occurrences(s: Seq<Seq<char>>) -> Seq<Seq<char>>
    decreases s.len(),
{
    if s.len() == 0 {
        seq![]
    } else {
        let rest = first_occurrences(s.drop_last());
        if rest.contains(s.last()) {
            rest
        } else {
            rest.push(s.last())
        }
    }
}

/// The directory of each project found in a walk, once, in the order in which
/// its first marker file was met.
pub fn project_dirs(files: &Vec<WalkedFile>) -> (dirs: Vec<String>)
    ensures
        names_of(dirs@) == first_occurrences(marker_parents(files@)),
{
    let mut dirs: Vec<String> = Vec::new();
    let mut i: usize = 0;
    proof {
        assert(names_of(dirs@) =~= seq![]);
        assert(files@.subrange(0, 0) =~= seq![]);
    }
    while i < files.len()
        invariant
            i <= files.len(),
            names_of(dirs@) == first_occurrences(marker_parents(files@.subrange(0, i as int))),
        decreases files.len() - i,
    {
        let ghost before = names_of(dirs@);
        proof {
            let sub = files@.subrange(0, i + 1);
            assert(sub.drop_last() =~= files@.subrange(0, i as int));
            assert(sub.last() == files@[i as int]);
        }
        let f = &files[i];
        if is_project_marker(f.name.as_str()) {
            match &f.parent {
                Some(p) => {
                    let seen = crate::text::has_name(&dirs, p.as_str());
                    proof {
                        let ms = marker_parents(files@.subrange(0, i + 1));
                        assert(ms.drop_last() =~= marker_parents(files@.subrange(0, i as int)));
                        assert(ms.last() == p@);
                    }
                    if !seen {
                        dirs.push(p.clone());
                        assert(names_of(dirs@) =~= before.push(p@));
                    }
                },
                None => {},
            }
        }
        i = i + 1;
    }
    proof {
        assert(files@.subrange(0, files@.len() as int) =~= files@);
    }
    dirs
}

/// The newest of the modification times, and never earlier than the epoch.
pub open spec fn newest_modification(times: Seq<i128>) -> int
    decreases times.len(),
{
    if times.len() == 0 {
        0
    } else {
        let rest = newest_modification(times.drop_last());
        if times.last() > rest {
            times.last() as int
        } else {
            rest
        }
    }
}

/// Stale: the clock is not behind the newest modification, and at least
/// `stale_days` whole days (counted from whole seconds) have passed since it.
pub open spec fn spec_is_stale(newest: int, now: int, stale_days: int) -> bool {
    now >= newest && (now - newest) / 1_000_000_000 / 86400 >= stale_days
}

impl Scanner {
    pub closed spec fn spec_stale_days(&self) -> u32 {
        self.stale_days
    }

    pub closed spec fn spec_max_depth(&self) -> usize {
        self.max_depth
    }

    pub fn new(stale_days: u32, max_depth: usize) -> (s: Self)
        ensures
            s.spec_stale_days() == stale_days,
            s.spec_max_depth() == max_depth,
    {
        Self { stale_days, max_depth }
    }

    /// Days without modification after which a project is stale.
    pub fn stale_days(&self) -> (d: u32)
        ensures
            d == self.spec_stale_days(),
    {
        self.stale_days
    }

    /// The depth to which walks descend.
    pub fn max_depth(&self) -> (d: usize)
        ensures
            d == self.spec_max_depth(),
    {
        self.max_depth
    }

    /// Whether a project whose source files were modified at the given times is
    /// stale at time `now` (nanoseconds relative to the epoch).
    pub fn is_stale(&self, modified_times: &Vec<i128>, now: i128) -> (r: bool)
        ensures
            r == spec_is_stale(newest_modification(modified_times@), now as int, self.spec_stale_days() as int),
    {
        let mut newest: i128 = 0;
        let mut i: usize = 0;
        proof {
            assert(modified_times@.subrange(0, 0) =~= seq![]);
        }
        while i < modified_times.len()
            invariant
                i <= modified_times.len(),
                newest as int == newest_modification(modified_times@.subrange(0, i as int)),
                newest >= 0,
            decreases modified_times.len() - i,
        {
            proof {
                let sub = modified_times@.subrange(0, i + 1);
                assert(sub.drop_last() =~= modified_times@.subrange(0, i as int));
            }
            if modified_times[i] > newest {
                newest = modified_times[i];
            }
            i = i + 1;
        }
        proof {
            assert(modified_times@.subrange(0, modified_times@.len() as int) =~= modified_times@);
        }
        if now >= newest {
            let elapsed = now - newest;
            let days = elapsed / 1_000_000_000 / 86400;
            days >= self.stale_days as i128
        } else {
            false
        }
    }

    /// The candidate projects that are stale at time `now` and not already
    /// hibernated, in their order.
    pub fn scan(&self, projects: &Vec<ProjectActivity>, now: i128) -> (stale: Vec<String>)
        ensures
            names_of(stale@) == stale_projects(projects@, now as int, self.spec_stale_days() as int),
    {
        let mut stale: Vec<String> = Vec::new();
        let mut i: usize = 0;
        proof {
            assert(names_of(stale@) =~= seq![]);
            assert(projects@.subrange(0, 0) =~= seq![]);
        }
        while i < projects.len()
            invariant
                i <= projects.len(),
                names_of(stale@) == stale_projects(projects@.subrange(0, i as int), now as int, self.spec_stale_days() as int),
            decreases projects.len() - i,
        {
            let ghost before = names_of(stale@);
            proof {
                let sub = projects@.subrange(0, i + 1);
                assert(sub.drop_last() =~= projects@.subrange(0, i as int));
                assert(sub.last() == projects@[i as int]);
            }
            let p = &projects[i];
            if !p.hibernated && self.is_stale(&p.modified_times, now) {
                stale.push(p.dir.clone());
                assert(names_of(stale@) =~= before.push(p.dir@));
            }
            i = i + 1;
        }
        proof {
            assert(projects@.subrange(0, projects@.len() as int) =~= projects@);
        }
        stale
    }
}

/// The directories of the projects that are stale and not hibernated, in order.
pub open spec fn stale_projects(projects: Seq<ProjectActivity>, now: int, stale_days: int) -> Seq<Seq<char>>
    decreases projects.len(),
{
    if projects.len() == 0 {
        seq![]
    } else {
        let rest = stale_projects(projects.drop_last(), now, stale_days);
        let p = projects.last();
        if !p.hibernated && spec_is_stale(newest_modification(p.modified_times@), now, stale_days) {
            rest.push(p.dir@)
        } else {
            rest
        }
    }
}

/// Each project is reported once: the directories found in a walk have no
/// repetition, and are exactly the directories that hold a marker file.
pub proof fn lemma_project_dirs_unique(s: Seq<Seq<char>>)
    ensures
        forall|i: int, j: int| 0 <= i < j < first_occurrences(s).len() ==> first_occurrences(s)[i] != first_occurrences(s)[j],
        forall|x: Seq<char>| first_occurrences(s).contains(x) <==> s.contains(x),
    decreases s.len(),
{
    if s.len() > 0 {
        let pre = s.drop_last();
        lemma_project_dirs_unique(pre);
        let r = first_occurrences(s);
        let rp = first_occurrences(pre);
        assert forall|x: Seq<char>| r.contains(x) <==> s.contains(x) by {
            if s.contains(x) {
                let k = choose|k: int| 0 <= k < s.len() && s[k] == x;
                if k < pre.len() {
                    assert(pre[k] == x);
                    assert(pre.contains(x));
                    let m = choose|m: int| 0 <= m < rp.len() && rp[m] == x;
                    assert(r[m] == x);
                } else {
                    assert(x == s.last());
                    if rp.contains(x) {
                        let m = choose|m: int| 0 <= m < rp.len() && rp[m] == x;
                        assert(r[m] == x);
                    } else {
                        assert(r[r.len() - 1] == x);
                    }
                }
            }
            if r.contains(x) {
                let m = choose|m: int| 0 <= m < r.len() && r[m] == x;
                if m < rp.len() {
                    assert(rp[m] == x);
                    assert(first_occurrences(pre).contains(x));
                    assert(pre.contains(x));
                    let k = choose|k: int| 0 <= k < pre.len() && pre[k] == x;
                    assert(s[k] == x);
                } else {
                    assert(x == s.last());
                    assert(s[s.len() - 1] == x);
                }
            }
        }
        assert forall|i: int, j: int| 0 <= i < j < r.len() implies r[i] != r[j] by {
            if j >= rp.len() {
                assert(r[j] == s.last());
                assert(!rp.contains(s.last()));
                assert(r[i] == rp[i]);
            } else {
                assert(r[i] == rp[i]);
                assert(r[j] == rp[j]);
            }
        }
    }
}

/// A candidate with this directory is stale and not hibernated.
pub open spec fn stale_candidate(projects: Seq<ProjectActivity>, dir: Seq<char>, now: int, stale_days: int) -> bool {
    exists|i: int| 0 <= i < projects.len() && !(#[trigger] projects[i]).hibernated && projects[i].dir@ == dir
        && spec_is_stale(newest_modification(projects[i].modified_times@), now, stale_days)
}

/// Already hibernated projects are never reported, and every reported
/// project is a candidate that is stale.
pub proof fn lemma_scan_reports_stale_unhibernated(projects: Seq<ProjectActivity>, now: int, stale_days: int)
    ensures
        forall|k: int| 0 <= k < stale_projects(projects, now, stale_days).len() ==> stale_candidate(
            projects,
            #[trigger] stale_projects(projects, now, stale_days)[k],
            now,
            stale_days,
        ),
    decreases projects.len(),
{
    if projects.len() > 0 {
        let pre = projects.drop_last();
        lemma_scan_reports_stale_unhibernated(pre, now, stale_days);
        let r = stale_projects(projects, now, stale_days);
        let rp = stale_projects(pre, now, stale_days);
        assert forall|k: int| 0 <= k < r.len() implies stale_candidate(projects, #[trigger] r[k], now, stale_days) by {
            if k < rp.len() {
                assert(r[k] == rp[k]);
                assert(stale_candidate(pre, rp[k], now, stale_days));
                let i = choose|i: int| 0 <= i < pre.len() && !(#[trigger] pre[i]).hibernated && pre[i].dir@ == rp[k]
                    && spec_is_stale(newest_modification(pre[i].modified_times@), now, stale_days);
                assert(projects[i] == pre[i]);
            } else {
                let i = projects.len() - 1;
                assert(projects[i] == projects.last());
            }
        }
    }
}

/// Staleness is monotone: a project stale for some number of days is stale
/// for any smaller number, and stays stale as the clock advances.
pub proof fn lemma_staleness_monotone(newest: int, now: int, later: int, days: int, fewer: int)
    requires
        spec_is_stale(newest, now, days),
        fewer <= days,
        now <= later,
    ensures
        spec_is_stale(newest, now, fewer),
        spec_is_stale(newest, later, days),
{
    assert((now - newest) / 1_000_000_000 <= (later - newest) / 1_000_000_000) by {
        vstd::arithmetic::div_mod::lemma_div_is_ordered(now - newest, later - newest, 1_000_000_000);
    }
    assert((now - newest) / 1_000_000_000 / 86400 <= (later - newest) / 1_000_000_000 / 86400) by {
        vstd::arithmetic::div_mod::lemma_div_is_ordered((now - newest) / 1_000_000_000, (later - newest) / 1_000_000_000, 86400);
    }
}

/// Whether a file is named as one of the project markers `package.json`,
/// `Cargo.toml`, `requirements.txt`, `pyproject.toml`, and has a directory.
pub open spec fn marks_directory(f: WalkedFile) -> bool {
    (f.name@ == "package.json"@ || f.name@ == "Cargo.toml"@ || f.name@ == "requirements.txt"@ || f.name@
        == "pyproject.toml"@) && f.parent is Some
}

proof fn lemma_marker_parents_members(files: Seq<WalkedFile>)
    ensures
        forall|k: int| 0 <= k < files.len() && marks_directory(#[trigger] files[k]) ==> marker_parents(files).contains(
            files[k].parent->0@,
        ),
        forall|d: Seq<char>| marker_parents(files).contains(d) ==> exists|k: int| 0 <= k < files.len() && marks_directory(
            #[trigger] files[k],
        ) && files[k].parent->0@ == d,
    decreases files.len(),
{
    if files.len() > 0 {
        let pre = files.drop_last();
        lemma_marker_parents_members(pre);
        let r = marker_parents(files);
        let rp = marker_parents(pre);
        assert forall|k: int| 0 <= k < files.len() && marks_directory(#[trigger] files[k]) implies r.contains(files[k].parent->0@) by {
            if k < pre.len() {
                assert(pre[k] == files[k]);
                let j = choose|j: int| 0 <= j < rp.len() && rp[j] == files[k].parent->0@;
                assert(r[j] == rp[j]);
            } else {
                assert(r[r.len() - 1] == files[k].parent->0@);
            }
        }
        assert forall|d: Seq<char>| r.contains(d) implies exists|k: int| 0 <= k < files.len() && marks_directory(
            #[trigger] files[k],
        ) && files[k].parent->0@ == d by {
            let j = choose|j: int| 0 <= j < r.len() && r[j] == d;
            if j < rp.len() {
                assert(rp[j] == d);
                assert(rp.contains(d));
                let k = choose|k: int| 0 <= k < pre.len() && marks_directory(#[trigger] pre[k]) && pre[k].parent->0@ == d;
                assert(files[k] == pre[k]);
            } else {
                assert(files[files.len() - 1].parent->0@ == d);
                assert(marks_directory(files[files.len() - 1]));
            }
        }
    }
}

/// A walk finds every project: the directory of each walked file named
/// `package.json`, `Cargo.toml`, `requirements.txt` or `pyproject.toml` is
/// among the directories found, each directory found holds such a file, and
/// none is found twice.
pub proof fn lemma_every_marked_directory_found(files: Seq<WalkedFile>)
    ensures
        forall|k: int| 0 <= k < files.len() && marks_directory(#[trigger] files[k]) ==> first_occurrences(
            marker_parents(files),
        ).contains(files[k].parent->0@),
        forall|d: Seq<char>| first_occurrences(marker_parents(files)).contains(d) ==> exists|k: int| 0 <= k < files.len()
            && marks_directory(#[trigger] files[k]) && files[k].parent->0@ == d,
        forall|i: int, j: int| 0 <= i < j < first_occurrences(marker_parents(files)).len() ==> first_occurrences(
            marker_parents(files),
        )[i] != first_occurrences(marker_parents(files))[j],
{
    lemma_marker_parents_members(files);
    lemma_project_dirs_unique(marker_parents(files));
    let mp = marker_parents(files);
    assert forall|d: Seq<char>| first_occurrences(mp).contains(d) implies exists|k: int| 0 <= k < files.len()
        && marks_directory(#[trigger] files[k]) && files[k].parent->0@ == d by {
        assert(mp.contains(d));
    }
    assert forall|k: int| 0 <= k < files.len() && marks_directory(#[trigger] files[k]) implies first_occurrences(mp).contains(
        files[k].parent->0@,
    ) by {
        assert(mp.contains(files[k].parent->0@));
    }
}

} // verus!
