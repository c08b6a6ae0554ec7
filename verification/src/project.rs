//! What the dashboard knows of one project: the summary of its working tree,
//! how it is built from what a scan of the repository found, and the order
//! in which projects are listed.
use vstd::prelude::*;
use vstd::string::*;
use crate::text::{
    chars_less, lemma_chars_less_asymmetric, lemma_chars_less_total, lemma_chars_less_transitive,
    lowercase, str_less, to_lowercase,
};

verus! {

/// How a changed file differs from the last commit.
#[derive(Clone, Copy, Debug, PartialEq, Eq, Structural)]
pub enum FileStatusType {
    Modified,
    Untracked,
    Deleted,
}

/// The status flags of one entry of a repository's status list that the
/// summary reads, for the index (staged) and the working tree.
#[derive(Clone, Copy, Debug, PartialEq, Eq, Structural)]
pub struct StatusFlags {
    pub index_new: bool,
    pub index_modified: bool,
    pub index_deleted: bool,
    pub index_renamed: bool,
    pub wt_new: bool,
    pub wt_modified: bool,
    pub wt_deleted: bool,
    pub wt_renamed: bool,
}

impl StatusFlags {
    /// The entry is new, in the working tree or in the index.
    #[verifier::allow_in_spec]
    pub fn is_new(&self) -> bool
        returns
            self.wt_new || self.index_new,
    {
        self.wt_new || self.index_new
    }

    /// The entry is modified or renamed, in the working tree or in the index.
    #[verifier::allow_in_spec]
    pub fn is_modified(&self) -> bool
        returns
            self.wt_modified || self.index_modified || self.wt_renamed || self.index_renamed,
    {
        self.wt_modified || self.index_modified || self.wt_renamed || self.index_renamed
    }

    /// The entry is deleted, in the working tree or in the index.
    #[verifier::allow_in_spec]
    pub fn is_deleted(&self) -> bool
        returns
            self.wt_deleted || self.index_deleted,
    {
        self.wt_deleted || self.index_deleted
    }
}

/// Most changed files that a project keeps by name.
pub const MAX_LISTED_CHANGES: usize = 15;

/// The branch shown when the head cannot be named.
pub const UNKNOWN_BRANCH: &'static str = "unknown";

/// Statistics of a repository hosted on GitHub.
#[derive(Clone)]
pub struct GitHubStats {
    pub stars: u32,
    pub forks: u32,
    pub open_issues: u32,
    pub url: String,
}

impl Default for GitHubStats {
    /// No stars, forks or issues, and no address.
    fn default() -> (s: GitHubStats)
        ensures
            s.stars == 0,
            s.forks == 0,
            s.open_issues == 0,
            s.url@.len() == 0,
    {
        GitHubStats { stars: 0, forks: 0, open_issues: 0, url: String::new() }
    }
}

/// A project of the master directory and the state of its repository.
pub struct Project {
    pub name: String,
    pub path: String,
    pub current_branch: String,
    pub is_dirty: bool,
    pub untracked: usize,
    pub modified: usize,
    pub deleted: usize,
    pub changed_files: Vec<(String, FileStatusType)>,
    pub ahead: usize,
    pub behind: usize,
    pub last_commit_msg: Option<String>,
    pub last_commit_time: i64,
    pub github_stats: Option<GitHubStats>,
}

/// What a scan found in one repository, as plain values.
pub struct RepoScan {
    /// The name of the project's directory.
    pub name: String,
    /// The path of the project's directory.
    pub path: String,
    /// The short name of the head, where the head could be read and named.
    pub branch: Option<String>,
    /// The time (seconds since the epoch) and summary of the head commit,
    /// where the head could be resolved to a commit.
    pub head_commit: Option<(i64, Option<String>)>,
    /// Commits ahead of and behind the upstream of the head branch, where
    /// both are known.
    pub ahead_behind: Option<(usize, usize)>,
    /// The path and flags of each entry of the status list, untracked files
    /// included; empty where the status could not be read.
    pub statuses: Vec<(String, StatusFlags)>,
}

/// The text of each (path, flags) entry.
pub open spec fn entries_view(entries: Seq<(String, StatusFlags)>) -> Seq<(Seq<char>, StatusFlags)> {
    entries.map_values(|e: (String, StatusFlags)| (e.0@, e.1))
}

/// The text of each (path, kind) change.
pub open spec fn changes_view(changes: Seq<(String, FileStatusType)>) -> Seq<(Seq<char>, FileStatusType)> {
    changes.map_values(|e: (String, FileStatusType)| (e.0@, e.1))
}

/// The changes that one status entry stands for, in the order untracked,
/// modified, deleted.
pub open spec fn entry_changes(path: Seq<char>, flags: StatusFlags) -> Seq<(Seq<char>, FileStatusType)> {
    (if flags.is_new() { seq![(path, FileStatusType::Untracked)] } else { seq![] })
        + (if flags.is_modified() { seq![(path, FileStatusType::Modified)] } else { seq![] })
        + (if flags.is_deleted() { seq![(path, FileStatusType::Deleted)] } else { seq![] })
}

/// The changes of all entries, in order.
pub open spec fn all_changes(entries: Seq<(Seq<char>, StatusFlags)>) -> Seq<(Seq<char>, FileStatusType)>
    decreases entries.len(),
{
    if entries.len() == 0 {
        seq![]
    } else {
        all_changes(entries.drop_last()) + entry_changes(entries.last().0, entries.last().1)
    }
}

/// How many entries are new.
pub open spec fn count_new(entries: Seq<(Seq<char>, StatusFlags)>) -> nat
    decreases entries.len(),
{
    if entries.len() == 0 {
        0
    } else {
        count_new(entries.drop_last()) + if entries.last().1.is_new() { 1nat } else { 0nat }
    }
}

/// How many entries are modified or renamed.
pub open spec fn count_modified(entries: Seq<(Seq<char>, StatusFlags)>) -> nat
    decreases entries.len(),
{
    if entries.len() == 0 {
        0
    } else {
        count_modified(entries.drop_last()) + if entries.last().1.is_modified() { 1nat } else { 0nat }
    }
}

/// How many entries are deleted.
pub open spec fn count_deleted(entries: Seq<(Seq<char>, StatusFlags)>) -> nat
    decreases entries.len(),
{
    if entries.len() == 0 {
        0
    } else {
        count_deleted(entries.drop_last()) + if entries.last().1.is_deleted() { 1nat } else { 0nat }
    }
}

/// The first `n` elements of `s`, or all of them where it is shorter.
pub open spec fn prefix<A>(s: Seq<A>, n: nat) -> Seq<A> {
    if s.len() <= n { s } else { s.take(n as int) }
}

proof fn lemma_prefix_push<A>(s: Seq<A>, x: A, n: nat)
    ensures
        prefix(s.push(x), n) == if prefix(s, n).len() < n { prefix(s, n).push(x) } else { prefix(s, n) },
        prefix(s, n).len() == if s.len() <= n { s.len() } else { n },
{
    if s.len() < n {
        assert(prefix(s.push(x), n) =~= s.push(x));
    } else if s.len() == n {
        assert(prefix(s.push(x), n) =~= s);
    } else {
        assert(prefix(s.push(x), n) =~= s.take(n as int));
    }
}

proof fn lemma_counts_bounded(entries: Seq<(Seq<char>, StatusFlags)>)
    ensures
        count_new(entries) <= entries.len(),
        count_modified(entries) <= entries.len(),
        count_deleted(entries) <= entries.len(),
    decreases entries.len(),
{
    if entries.len() > 0 {
        lemma_counts_bounded(entries.drop_last());
    }
}

/// The summary of a status list: how many entries are new, modified and
/// deleted, and the first changes by name.
pub struct StatusSummary {
    pub untracked: usize,
    pub modified: usize,
    pub deleted: usize,
    pub changed_files: Vec<(String, FileStatusType)>,
}

/// Counts the new, modified and deleted entries of a status list, and keeps
/// the first `MAX_LISTED_CHANGES` of the changes that they stand for.
pub fn summarize_statuses(entries: &Vec<(String, StatusFlags)>) -> (s: StatusSummary)
    ensures
        s.untracked == count_new(entries_view(entries@)),
        s.modified == count_modified(entries_view(entries@)),
        s.deleted == count_deleted(entries_view(entries@)),
        changes_view(s.changed_files@) == prefix(all_changes(entries_view(entries@)), MAX_LISTED_CHANGES as nat),
{
    let ghost ev = entries_view(entries@);
    let mut untracked: usize = 0;
    let mut modified: usize = 0;
    let mut deleted: usize = 0;
    let mut changed_files: Vec<(String, FileStatusType)> = Vec::new();
    let mut i: usize = 0;
    while i < entries.len()
        invariant
            i <= entries.len(),
            ev == entries_view(entries@),
            untracked == count_new(ev.take(i as int)),
            modified == count_modified(ev.take(i as int)),
            deleted == count_deleted(ev.take(i as int)),
            changes_view(changed_files@) == prefix(all_changes(ev.take(i as int)), MAX_LISTED_CHANGES as nat),
        decreases entries.len() - i,
    {
        let path = &entries[i].0;
        let status = entries[i].1;
        let ghost all_before = all_changes(ev.take(i as int));
        let ghost n = MAX_LISTED_CHANGES as nat;
        proof {
            assert(ev.take(i + 1).drop_last() =~= ev.take(i as int));
            assert(ev.take(i + 1).last() == (path@, status));
            lemma_counts_bounded(ev.take(i as int));
            lemma_prefix_push(all_before, (path@, FileStatusType::Untracked), n);
        }
        let ghost e1: Seq<(Seq<char>, FileStatusType)> = if status.is_new() { seq![(path@, FileStatusType::Untracked)] } else { seq![] };
        if status.is_new() {
            untracked = untracked + 1;
            if changed_files.len() < MAX_LISTED_CHANGES {
                let ghost old_cf = changed_files@;
                changed_files.push((path.clone(), FileStatusType::Untracked));
                assert(changes_view(changed_files@) =~= changes_view(old_cf).push((path@, FileStatusType::Untracked)));
            }
            assert(all_before + e1 =~= all_before.push((path@, FileStatusType::Untracked)));
        } else {
            assert(all_before + e1 =~= all_before);
        }
        assert(changes_view(changed_files@) == prefix(all_before + e1, n));
        let ghost e2: Seq<(Seq<char>, FileStatusType)> = if status.is_modified() { seq![(path@, FileStatusType::Modified)] } else { seq![] };
        proof {
            lemma_prefix_push(all_before + e1, (path@, FileStatusType::Modified), n);
        }
        if status.is_modified() {
            modified = modified + 1;
            if changed_files.len() < MAX_LISTED_CHANGES {
                let ghost old_cf = changed_files@;
                changed_files.push((path.clone(), FileStatusType::Modified));
                assert(changes_view(changed_files@) =~= changes_view(old_cf).push((path@, FileStatusType::Modified)));
            }
            assert(all_before + e1 + e2 =~= (all_before + e1).push((path@, FileStatusType::Modified)));
        } else {
            assert(all_before + e1 + e2 =~= all_before + e1);
        }
        assert(changes_view(changed_files@) == prefix(all_before + e1 + e2, n));
        let ghost e3: Seq<(Seq<char>, FileStatusType)> = if status.is_deleted() { seq![(path@, FileStatusType::Deleted)] } else { seq![] };
        proof {
            lemma_prefix_push(all_before + e1 + e2, (path@, FileStatusType::Deleted), n);
        }
        if status.is_deleted() {
            deleted = deleted + 1;
            if changed_files.len() < MAX_LISTED_CHANGES {
                let ghost old_cf = changed_files@;
                changed_files.push((path.clone(), FileStatusType::Deleted));
                assert(changes_view(changed_files@) =~= changes_view(old_cf).push((path@, FileStatusType::Deleted)));
            }
            assert(all_before + e1 + e2 + e3 =~= (all_before + e1 + e2).push((path@, FileStatusType::Deleted)));
        } else {
            assert(all_before + e1 + e2 + e3 =~= all_before + e1 + e2);
        }
        proof {
            assert(entry_changes(path@, status) =~= e1 + e2 + e3);
            assert(all_changes(ev.take(i + 1)) =~= all_before + e1 + e2 + e3);
        }
        i = i + 1;
    }
    assert(ev.take(entries.len() as int) =~= ev);
    StatusSummary { untracked, modified, deleted, changed_files }
}

/// Each entry stands for as many changes as it has kinds, so the changes of
/// a status list are as many as the new, modified and deleted counts
/// together.
pub proof fn lemma_changes_match_counts(entries: Seq<(Seq<char>, StatusFlags)>)
    ensures
        all_changes(entries).len() == count_new(entries) + count_modified(entries) + count_deleted(entries),
    decreases entries.len(),
{
    if entries.len() > 0 {
        lemma_changes_match_counts(entries.drop_last());
    }
}

/// A project built from a scan keeps at most `MAX_LISTED_CHANGES` changed
/// files, as many as it has changes up to that bound, so it is dirty
/// exactly when it lists a changed file, and the changes it does not list
/// are the total of its counts less the listed ones.
pub proof fn lemma_listed_changes(entries: Seq<(Seq<char>, StatusFlags)>)
    ensures
        ({
            let total = count_new(entries) + count_modified(entries) + count_deleted(entries);
            let listed = prefix(all_changes(entries), MAX_LISTED_CHANGES as nat);
            &&& listed.len() == if total <= MAX_LISTED_CHANGES { total } else { MAX_LISTED_CHANGES as nat }
            &&& (total > 0 <==> listed.len() > 0)
            &&& listed.len() <= total
        }),
{
    lemma_changes_match_counts(entries);
}

/// How each status entry is counted, by its flags: it is new when it is
/// new in the working tree or the index; modified when it is modified or
/// renamed in either; deleted when it is deleted in either. An entry counts
/// once for each of these that holds.
pub proof fn lemma_counts_by_flags(entries: Seq<(Seq<char>, StatusFlags)>, path: Seq<char>, f: StatusFlags)
    ensures
        count_new(Seq::<(Seq<char>, StatusFlags)>::empty()) == 0,
        count_modified(Seq::<(Seq<char>, StatusFlags)>::empty()) == 0,
        count_deleted(Seq::<(Seq<char>, StatusFlags)>::empty()) == 0,
        count_new(entries.push((path, f))) == count_new(entries) + if f.wt_new || f.index_new { 1int } else { 0int },
        count_modified(entries.push((path, f))) == count_modified(entries)
            + if f.wt_modified || f.index_modified || f.wt_renamed || f.index_renamed { 1int } else { 0int },
        count_deleted(entries.push((path, f))) == count_deleted(entries)
            + if f.wt_deleted || f.index_deleted { 1int } else { 0int },
{
    assert(entries.push((path, f)).drop_last() =~= entries);
}

/// The changes that an entry adds, after those of the entries before it:
/// untracked if new, then modified if modified or renamed, then deleted if
/// deleted, each under the entry's path.
pub proof fn lemma_changes_by_flags(entries: Seq<(Seq<char>, StatusFlags)>, path: Seq<char>, f: StatusFlags)
    ensures
        all_changes(entries.push((path, f))) == all_changes(entries)
            + (if f.wt_new || f.index_new { seq![(path, FileStatusType::Untracked)] } else { seq![] })
            + (if f.wt_modified || f.index_modified || f.wt_renamed || f.index_renamed {
                seq![(path, FileStatusType::Modified)]
            } else {
                seq![]
            })
            + (if f.wt_deleted || f.index_deleted { seq![(path, FileStatusType::Deleted)] } else { seq![] }),
{
    assert(entries.push((path, f)).drop_last() =~= entries);
    assert(all_changes(entries.push((path, f))) =~= all_changes(entries)
        + (if f.wt_new || f.index_new { seq![(path, FileStatusType::Untracked)] } else { seq![] })
        + (if f.wt_modified || f.index_modified || f.wt_renamed || f.index_renamed {
            seq![(path, FileStatusType::Modified)]
        } else {
            seq![]
        })
        + (if f.wt_deleted || f.index_deleted { seq![(path, FileStatusType::Deleted)] } else { seq![] }));
}

/// Whether an entry has any of the flags that the summary reads.
pub open spec fn has_change(f: StatusFlags) -> bool {
    f.wt_new || f.index_new || f.wt_modified || f.index_modified || f.wt_renamed || f.index_renamed
        || f.wt_deleted || f.index_deleted
}

/// A status list has changes, and its project is dirty, exactly when one of
/// its entries is new, modified, renamed or deleted in the index or the
/// working tree.
pub proof fn lemma_dirty_iff_some_flag(entries: Seq<(Seq<char>, StatusFlags)>)
    ensures
        count_new(entries) + count_modified(entries) + count_deleted(entries) > 0
            <==> exists|i: int| 0 <= i < entries.len() && has_change(#[trigger] entries[i].1),
    decreases entries.len(),
{
    if entries.len() > 0 {
        let init = entries.drop_last();
        lemma_dirty_iff_some_flag(init);
        lemma_counts_by_flags(init, entries.last().0, entries.last().1);
        assert(init.push(entries.last()) =~= entries);
        if exists|i: int| 0 <= i < init.len() && has_change(#[trigger] init[i].1) {
            let i = choose|i: int| 0 <= i < init.len() && has_change(#[trigger] init[i].1);
            assert(entries[i] == init[i]);
        }
        if exists|i: int| 0 <= i < entries.len() && has_change(#[trigger] entries[i].1) {
            let i = choose|i: int| 0 <= i < entries.len() && has_change(#[trigger] entries[i].1);
            if i < init.len() {
                assert(init[i] == entries[i]);
            }
        }
    }
}

/// Sorting leaves the projects of a list, each once, in the order of their
/// whole names in lower case, and projects whose lower-case names are equal
/// in the order in which they came.
pub proof fn lemma_sorted_by_name(out: Seq<Project>, inp: Seq<Project>, perm: Seq<int>)
    requires
        is_stable_sort(out, inp, perm),
    ensures
        forall|k: int, l: int|
            0 <= k < l < out.len() ==> !chars_less(lowercase((#[trigger] out[l]).name@), lowercase((#[trigger] out[k]).name@)),
        forall|k: int, l: int|
            0 <= k < l < out.len() && lowercase((#[trigger] out[k]).name@) == lowercase((#[trigger] out[l]).name@)
                ==> perm[k] < perm[l],
{
    assert forall|k: int, l: int|
        0 <= k < l < out.len() implies !chars_less(lowercase((#[trigger] out[l]).name@), lowercase((#[trigger] out[k]).name@))
            && (lowercase(out[k].name@) == lowercase(out[l].name@) ==> perm[k] < perm[l]) by {
        assert(listed_before(out[k], out[l], perm[k], perm[l]));
        lemma_chars_less_asymmetric(lowercase(out[k].name@), lowercase(out[l].name@));
        lemma_chars_less_asymmetric(lowercase(out[l].name@), lowercase(out[l].name@));
    }
}

impl Project {
    /// The project that a scan of one repository describes: the branch is
    /// `unknown` where the head has no name, the commit time 0 and the
    /// message absent where there is no head commit, ahead and behind 0
    /// where they are not known; the status list gives the counts and the
    /// first changes, and the project is dirty when any entry is new,
    /// modified or deleted.
    pub fn from_scan(scan: RepoScan, github_stats: Option<GitHubStats>) -> (p: Project)
        ensures
            p.name == scan.name,
            p.path == scan.path,
            match scan.branch {
                Some(b) => p.current_branch == b,
                None => p.current_branch@ == UNKNOWN_BRANCH@,
            },
            match scan.head_commit {
                Some(c) => p.last_commit_time == c.0 && p.last_commit_msg == c.1,
                None => p.last_commit_time == 0 && p.last_commit_msg is None,
            },
            match scan.ahead_behind {
                Some(ab) => p.ahead == ab.0 && p.behind == ab.1,
                None => p.ahead == 0 && p.behind == 0,
            },
            p.untracked == count_new(entries_view(scan.statuses@)),
            p.modified == count_modified(entries_view(scan.statuses@)),
            p.deleted == count_deleted(entries_view(scan.statuses@)),
            changes_view(p.changed_files@) == prefix(
                all_changes(entries_view(scan.statuses@)),
                MAX_LISTED_CHANGES as nat,
            ),
            p.is_dirty == (p.untracked + p.modified + p.deleted > 0),
            p.github_stats == github_stats,
    {
        let summary = summarize_statuses(&scan.statuses);
        let current_branch = match scan.branch {
            Some(b) => b,
            None => String::from_str(UNKNOWN_BRANCH),
        };
        let (last_commit_time, last_commit_msg) = match scan.head_commit {
            Some(c) => c,
            None => (0, None),
        };
        let (ahead, behind) = match scan.ahead_behind {
            Some(ab) => ab,
            None => (0, 0),
        };
        let is_dirty = summary.untracked > 0 || summary.modified > 0 || summary.deleted > 0;
        Project {
            name: scan.name,
            path: scan.path,
            current_branch,
            is_dirty,
            untracked: summary.untracked,
            modified: summary.modified,
            deleted: summary.deleted,
            changed_files: summary.changed_files,
            ahead,
            behind,
            last_commit_msg,
            last_commit_time,
            github_stats,
        }
    }
}

/// The key by which projects are listed: the name in lower case.
pub open spec fn name_key(p: Project) -> Seq<char> {
    lowercase(p.name@)
}

/// `a`, which came from position `pa`, may stand before `b`, which came from
/// position `pb`: its key is smaller, or the keys are equal and `a` came
/// first.
pub open spec fn listed_before(a: Project, b: Project, pa: int, pb: int) -> bool {
    chars_less(name_key(a), name_key(b)) || (name_key(a) == name_key(b) && pa < pb)
}

/// `out` holds the projects of `inp` in the order of their keys, projects
/// with equal keys in their order in `inp`: `out[k]` is `inp[perm[k]]`, and
/// `perm` is a permutation of the positions of `inp`.
pub open spec fn is_stable_sort(out: Seq<Project>, inp: Seq<Project>, perm: Seq<int>) -> bool {
    &&& out.len() == inp.len()
    &&& perm.len() == inp.len()
    &&& forall|k: int| 0 <= k < perm.len() ==> 0 <= #[trigger] perm[k] < inp.len() && out[k] == inp[perm[k]]
    &&& forall|k: int, l: int| 0 <= k < l < perm.len() ==> #[trigger] perm[k] != #[trigger] perm[l]
    &&& forall|k: int, l: int|
        0 <= k < l < out.len() ==> listed_before(#[trigger] out[k], #[trigger] out[l], perm[k], perm[l])
}

/// Whether `a` comes before `b` by the lower-case names.
fn name_before(a: &Project, b: &Project) -> (r: bool)
    ensures
        r == chars_less(name_key(*a), name_key(*b)),
{
    let ka = to_lowercase(a.name.as_str());
    let kb = to_lowercase(b.name.as_str());
    str_less(ka.as_str(), kb.as_str())
}

/// Sorts the projects by their names in lower case; projects whose names
/// differ only in case keep their order (the sort is stable).
pub fn sort_projects(projects: &mut Vec<Project>)
    ensures
        exists|perm: Seq<int>|
            is_stable_sort(final(projects)@, old(projects)@, perm) && forall|k: int, l: int|
                0 <= k < l < final(projects)@.len() && lowercase((#[trigger] final(projects)@[k]).name@)
                    == lowercase((#[trigger] final(projects)@[l]).name@) ==> perm[k] < perm[l],
        forall|k: int, l: int|
            0 <= k < l < final(projects)@.len() ==> !chars_less(
                lowercase((#[trigger] final(projects)@[l]).name@),
                lowercase((#[trigger] final(projects)@[k]).name@),
            ),
{
    let ghost orig = projects@;
    let n = projects.len();
    let ghost mut perm: Seq<int> = seq![];
    let mut i: usize = 0;
    while i < n
        invariant
            projects@.len() == n,
            orig.len() == n,
            i <= n,
            perm.len() == i,
            forall|k: int| i <= k < n ==> projects@[k] == orig[k],
            forall|k: int| 0 <= k < i ==> 0 <= #[trigger] perm[k] < i && projects@[k] == orig[perm[k]],
            forall|k: int, l: int| 0 <= k < l < i ==> #[trigger] perm[k] != #[trigger] perm[l],
            forall|k: int, l: int|
                0 <= k < l < i ==> listed_before(#[trigger] projects@[k], #[trigger] projects@[l], perm[k], perm[l]),
        decreases n - i,
    {
        let mut pos: usize = 0;
        while pos < i && !name_before(&projects[i], &projects[pos])
            invariant
                projects@.len() == n,
                i < n,
                pos <= i,
                forall|k: int| 0 <= k < pos ==> !chars_less(name_key(projects@[i as int]), #[trigger] name_key(projects@[k])),
            decreases i - pos,
        {
            pos = pos + 1;
        }
        let ghost v = projects@;
        let ghost x = v[i as int];
        let ghost old_perm = perm;
        proof {
            if pos < i {
                assert(chars_less(name_key(x), name_key(v[pos as int])));
            }
        }
        let item = projects.remove(i);
        projects.insert(pos, item);
        proof {
            perm = old_perm.insert(pos as int, i as int);
            let w = projects@;
            assert(w.len() == n);
            assert forall|k: int| 0 <= k < i + 1 implies 0 <= #[trigger] perm[k] < i + 1 && w[k] == orig[perm[k]] by {
                if k < pos {
                    assert(w[k] == v[k]);
                } else if k == pos {
                    assert(w[k] == x);
                } else {
                    assert(w[k] == v[k - 1]);
                }
            }
            assert forall|k: int| i + 1 <= k < n implies w[k] == orig[k] by {
                assert(w[k] == v[k]);
            }
            assert forall|k: int, l: int| 0 <= k < l < i + 1 implies #[trigger] perm[k] != #[trigger] perm[l] by {
                if k == pos {
                    assert(perm[k] == i);
                    if l > pos {
                        assert(perm[l] == old_perm[l - 1]);
                    }
                } else if l == pos {
                    assert(perm[k] == old_perm[k]);
                } else {
                    let ok = if k < pos { k } else { k - 1 };
                    let ol = if l < pos { l } else { l - 1 };
                    assert(perm[k] == old_perm[ok]);
                    assert(perm[l] == old_perm[ol]);
                }
            }
            assert forall|k: int, l: int|
                0 <= k < l < i + 1 implies listed_before(#[trigger] w[k], #[trigger] w[l], perm[k], perm[l]) by {
                if l == pos {
                    // an earlier project is not after the inserted one
                    assert(w[k] == v[k]);
                    assert(!chars_less(name_key(x), name_key(v[k])));
                    lemma_chars_less_total(name_key(v[k]), name_key(x));
                    assert(perm[k] == old_perm[k]);
                } else if k == pos {
                    // a later project comes strictly after the inserted one
                    let ol = l - 1;
                    assert(w[l] == v[ol]);
                    assert(pos < i);
                    if ol > pos {
                        assert(listed_before(v[pos as int], v[ol], old_perm[pos as int], old_perm[ol]));
                        if chars_less(name_key(v[pos as int]), name_key(v[ol])) {
                            lemma_chars_less_transitive(name_key(x), name_key(v[pos as int]), name_key(v[ol]));
                        }
                    }
                } else {
                    let ok = if k < pos { k } else { k - 1 };
                    let ol = if l < pos { l } else { l - 1 };
                    assert(w[k] == v[ok]);
                    assert(w[l] == v[ol]);
                    assert(perm[k] == old_perm[ok]);
                    assert(perm[l] == old_perm[ol]);
                    assert(ok < ol);
                    assert(listed_before(v[ok], v[ol], old_perm[ok], old_perm[ol]));
                }
            }
        }
        i = i + 1;
    }
    assert(is_stable_sort(projects@, orig, perm));
    proof {
        lemma_sorted_by_name(projects@, orig, perm);
    }
}

} // verus!
