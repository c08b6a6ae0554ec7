//! Finding the GitHub repository of a project from the URL of its `origin`
//! remote, and the API address of its statistics.
use vstd::prelude::*;
use vstd::string::*;

verus! {

/// `pat` occurs in `s` at position `i`.
pub open spec fn occurs_at(s: Seq<char>, pat: Seq<char>, i: int) -> bool {
    0 <= i && i + pat.len() <= s.len() && s.subrange(i, i + pat.len()) == pat
}

/// The first position at or after `from` where `pat` occurs in `s`.
pub open spec fn find_from(s: Seq<char>, pat: Seq<char>, from: int) -> Option<int>
    decreases s.len() + 1 - from,
{
    if from < 0 || from + pat.len() > s.len() {
        None
    } else if occurs_at(s, pat, from) {
        Some(from)
    } else {
        find_from(s, pat, from + 1)
    }
}

/// `s` contains `pat`.
pub open spec fn contains(s: Seq<char>, pat: Seq<char>) -> bool {
    find_from(s, pat, 0) is Some
}

/// `s` starts with `pat`.
pub open spec fn starts_with(s: Seq<char>, pat: Seq<char>) -> bool {
    occurs_at(s, pat, 0)
}

/// How many times `c` occurs in `s`.
pub open spec fn count_char(s: Seq<char>, c: char) -> nat
    decreases s.len(),
{
    if s.len() == 0 {
        0
    } else {
        count_char(s.drop_last(), c) + if s.last() == c { 1nat } else { 0nat }
    }
}

/// The suffix `.git`.
pub open spec fn git_suffix() -> Seq<char> {
    seq!['.', 'g', 'i', 't']
}

/// `s` with every trailing `.git` removed, as `trim_end_matches(".git")`
/// gives it.
pub open spec fn strip_git(s: Seq<char>) -> Seq<char>
    decreases s.len(),
{
    if s.len() >= 4 && s.subrange(s.len() - 4, s.len() as int) == git_suffix() {
        strip_git(s.subrange(0, s.len() - 4))
    } else {
        s
    }
}

/// The `owner/repo` path of a GitHub remote URL:
/// - an URL that does not mention `github.com` has none;
/// - an SSH URL (`git@...`) with exactly one `:` has the part after it;
/// - an URL that starts with `http` has the part after the first
///   `github.com/`, up to the next `github.com/` if there is one;
/// - any other URL has none;
/// and the path has its trailing `.git` suffixes removed.
pub open spec fn repo_path_of(url: Seq<char>) -> Option<Seq<char>> {
    if !contains(url, "github.com"@) {
        None
    } else if starts_with(url, "git@"@) {
        if count_char(url, ':') == 1 {
            let colon = find_from(url, seq![':'], 0)->0;
            Some(strip_git(url.subrange(colon + 1, url.len() as int)))
        } else {
            None
        }
    } else if starts_with(url, "http"@) {
        match find_from(url, "github.com/"@, 0) {
            None => None,
            Some(p) => {
                let start = p + "github.com/"@.len();
                let end = match find_from(url, "github.com/"@, start) {
                    Some(q) => q,
                    None => url.len() as int,
                };
                Some(strip_git(url.subrange(start, end)))
            },
        }
    } else {
        None
    }
}

/// Whether `pat` occurs in `s` at position `i`.
fn occurs_at_exec(s: &str, pat: &str, i: usize) -> (r: bool)
    ensures
        r == occurs_at(s@, pat@, i as int),
{
    let n = s.unicode_len();
    let m = pat.unicode_len();
    if i > n || m > n - i {
        return false;
    }
    let mut k: usize = 0;
    while k < m
        invariant
            n == s@.len(),
            m == pat@.len(),
            i + m <= n,
            k <= m,
            forall|j: int| 0 <= j < k ==> s@[i + j] == pat@[j],
        decreases m - k,
    {
        if s.get_char(i + k) != pat.get_char(k) {
            assert(s@.subrange(i as int, i + m)[k as int] != pat@[k as int]);
            return false;
        }
        k = k + 1;
    }
    assert(s@.subrange(i as int, i + m) =~= pat@);
    true
}

/// The first position at or after `from` where `pat` occurs in `s`.
fn find_exec(s: &str, pat: &str, from: usize) -> (r: Option<usize>)
    ensures
        match r {
            Some(k) => find_from(s@, pat@, from as int) == Some(k as int),
            None => find_from(s@, pat@, from as int) is None,
        },
{
    let n = s.unicode_len();
    let m = pat.unicode_len();
    if m == 0 {
        if from <= n {
            assert(s@.subrange(from as int, from as int) =~= pat@);
            return Some(from);
        }
        return None;
    }
    let mut i: usize = from;
    while i <= n && m <= n - i
        invariant
            n == s@.len(),
            m == pat@.len(),
            m > 0,
            from <= i,
            find_from(s@, pat@, from as int) == find_from(s@, pat@, i as int),
        decreases n + 1 - i,
    {
        if occurs_at_exec(s, pat, i) {
            return Some(i);
        }
        i = i + 1;
    }
    None
}

/// How many times `c` occurs in `s`.
fn count_char_exec(s: &str, c: char) -> (r: usize)
    ensures
        r == count_char(s@, c),
{
    let n = s.unicode_len();
    let mut count: usize = 0;
    let mut i: usize = 0;
    while i < n
        invariant
            n == s@.len(),
            i <= n,
            count == count_char(s@.take(i as int), c),
            count <= i,
        decreases n - i,
    {
        assert(s@.take(i + 1).drop_last() =~= s@.take(i as int));
        if s.get_char(i) == c {
            count = count + 1;
        }
        i = i + 1;
    }
    assert(s@.take(n as int) =~= s@);
    count
}

/// `s[from..to]` with every trailing `.git` removed.
fn strip_git_exec(s: &str, from: usize, to: usize) -> (r: String)
    requires
        from <= to <= s@.len(),
    ensures
        r@ == strip_git(s@.subrange(from as int, to as int)),
{
    proof {
        reveal_strlit(".git");
    }
    let mut end: usize = to;
    while end - from >= 4 && occurs_at_exec(s, ".git", end - 4)
        invariant
            from <= end <= to,
            to <= s@.len(),
            ".git"@ == git_suffix(),
            strip_git(s@.subrange(from as int, to as int)) == strip_git(s@.subrange(from as int, end as int)),
        decreases end,
    {
        assert(s@.subrange(from as int, end as int).subrange(end - from - 4, end - from)
            =~= s@.subrange(end - 4, end as int));
        assert(s@.subrange(from as int, end as int).subrange(0, end - from - 4)
            =~= s@.subrange(from as int, end - 4));
        end = end - 4;
    }
    if end - from >= 4 {
        assert(s@.subrange(from as int, end as int).subrange(end - from - 4, end - from)
            =~= s@.subrange(end - 4, end as int));
    }
    String::from_str(s.substring_char(from, end))
}

/// The `owner/repo` path of the GitHub repository that a remote URL names,
/// if it names one.
pub fn github_repo_path(remote_url: &str) -> (r: Option<String>)
    ensures
        match r {
            Some(p) => repo_path_of(remote_url@) == Some(p@),
            None => repo_path_of(remote_url@) is None,
        },
{
    if find_exec(remote_url, "github.com", 0).is_none() {
        return None;
    }
    let n = remote_url.unicode_len();
    if occurs_at_exec(remote_url, "git@", 0) {
        if count_char_exec(remote_url, ':') == 1 {
            proof {
                reveal_strlit(":");
            }
            assert(":"@ =~= seq![':']);
            match find_exec(remote_url, ":", 0) {
                Some(colon) => {
                    proof {
                        lemma_find_occurs(remote_url@, seq![':'], 0);
                    }
                    Some(strip_git_exec(remote_url, colon + 1, n))
                },
                None => {
                    proof {
                        lemma_count_found(remote_url@, ':');
                    }
                    None
                },
            }
        } else {
            None
        }
    } else if occurs_at_exec(remote_url, "http", 0) {
        match find_exec(remote_url, "github.com/", 0) {
            None => None,
            Some(p) => {
                proof {
                    lemma_find_occurs(remote_url@, "github.com/"@, 0);
                }
                let start = p + "github.com/".unicode_len();
                let end = match find_exec(remote_url, "github.com/", start) {
                    Some(q) => {
                        proof {
                            lemma_find_occurs(remote_url@, "github.com/"@, start as int);
                        }
                        q
                    },
                    None => n,
                };
                Some(strip_git_exec(remote_url, start, end))
            },
        }
    } else {
        None
    }
}

/// A position that `find_from` gives is one where the pattern occurs, at
/// or after the start.
proof fn lemma_find_occurs(s: Seq<char>, pat: Seq<char>, from: int)
    ensures
        find_from(s, pat, from) matches Some(k) ==> occurs_at(s, pat, k) && from <= k,
    decreases s.len() + 1 - from,
{
    if !(from < 0 || from + pat.len() > s.len()) && !occurs_at(s, pat, from) {
        lemma_find_occurs(s, pat, from + 1);
    }
}

/// A pattern that occurs at or after the start is found.
proof fn lemma_find_some(s: Seq<char>, pat: Seq<char>, from: int, i: int)
    requires
        0 <= from <= i,
        occurs_at(s, pat, i),
    ensures
        find_from(s, pat, from) is Some,
    decreases i - from,
{
    if !occurs_at(s, pat, from) {
        lemma_find_some(s, pat, from + 1, i);
    }
}

/// A character that occurs is found.
proof fn lemma_count_found(s: Seq<char>, c: char)
    requires
        count_char(s, c) > 0,
    ensures
        find_from(s, seq![c], 0) is Some,
    decreases s.len(),
{
    if s.last() == c {
        assert(s.subrange(s.len() - 1, s.len() as int) =~= seq![c]);
        lemma_find_some(s, seq![c], 0, s.len() - 1);
    } else {
        lemma_count_found(s.drop_last(), c);
        lemma_find_occurs(s.drop_last(), seq![c], 0);
        let k = find_from(s.drop_last(), seq![c], 0)->0;
        assert(s.subrange(k, k + 1) =~= s.drop_last().subrange(k, k + 1));
        lemma_find_some(s, seq![c], 0, k);
    }
}

/// Removing the `.git` suffixes leaves none.
pub proof fn lemma_strip_git_leaves_no_suffix(s: Seq<char>)
    ensures
        !(strip_git(s).len() >= 4 && strip_git(s).subrange(strip_git(s).len() - 4, strip_git(s).len() as int)
            == git_suffix()),
    decreases s.len(),
{
    if s.len() >= 4 && s.subrange(s.len() - 4, s.len() as int) == git_suffix() {
        lemma_strip_git_leaves_no_suffix(s.subrange(0, s.len() - 4));
    }
}

/// The repository path of a remote never ends with `.git`.
pub proof fn lemma_repo_path_has_no_git_suffix(url: Seq<char>)
    ensures
        repo_path_of(url) matches Some(p) ==> !(p.len() >= 4 && p.subrange(p.len() - 4, p.len() as int) == git_suffix()),
{
    if !contains(url, "github.com"@) {
    } else if starts_with(url, "git@"@) {
        if count_char(url, ':') == 1 {
            let colon = find_from(url, seq![':'], 0)->0;
            lemma_strip_git_leaves_no_suffix(url.subrange(colon + 1, url.len() as int));
        }
    } else if starts_with(url, "http"@) {
        match find_from(url, "github.com/"@, 0) {
            None => {},
            Some(p) => {
                let start = p + "github.com/"@.len();
                let end = match find_from(url, "github.com/"@, start) {
                    Some(q) => q,
                    None => url.len() as int,
                };
                lemma_strip_git_leaves_no_suffix(url.subrange(start, end));
            },
        }
    }
}

/// The address of the GitHub API that describes the repository at
/// `owner/repo`.
pub fn github_api_url(repo_path: &str) -> (r: String)
    ensures
        r@ == "https://api.github.com/repos/"@ + repo_path@,
{
    let mut r = String::from_str("https://api.github.com/repos/");
    r.append(repo_path);
    r
}

} // verus!
