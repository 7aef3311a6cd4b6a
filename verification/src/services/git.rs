//! The git commands behind worktrees and branches, and what their output says.

use vstd::prelude::*;
use crate::services::command::{CommandRunner, Outcome, git_call, git_call_in};
use crate::text::{char_is_space, chars_of, contains_text, has_infix, has_prefix, int_of, is_space, lines, lines_of, matches_at, parse_int, split, split_on, string_of_range, texts, trim_bounds, trimmed};

verus! {

/// What git reports of a worktree.
#[derive(Debug, Clone, Copy, PartialEq, Eq, Structural)]
pub struct GitMetrics {
    pub additions: i32,
    pub deletions: i32,
    pub commits: i32,
    pub has_conflict: bool,
}

impl Default for GitMetrics {
    fn default() -> (r: Self)
        ensures
            r == (GitMetrics { additions: 0, deletions: 0, commits: 0, has_conflict: false }),
    {
        GitMetrics { additions: 0, deletions: 0, commits: 0, has_conflict: false }
    }
}

/// Makes the branch and its worktree at `path`.
pub fn create_worktree(branch: &str, path: &str) -> (r: CommandRunner)
    ensures
        r@ == git_call(seq!["worktree"@, "add"@, "-b"@, branch@, path@]),
{
    let r = CommandRunner::git().arg("worktree").arg("add").arg("-b").arg(branch).arg(path);
    assert(r@.args =~= seq!["worktree"@, "add"@, "-b"@, branch@, path@]);
    r
}

/// Removes the worktree at `path`, changed or not.
pub fn remove_worktree(path: &str) -> (r: CommandRunner)
    ensures
        r@ == git_call(seq!["worktree"@, "remove"@, "--force"@, path@]),
{
    let r = CommandRunner::git().arg("worktree").arg("remove").arg("--force").arg(path);
    assert(r@.args =~= seq!["worktree"@, "remove"@, "--force"@, path@]);
    r
}

/// Deletes the branch, merged or not.
pub fn delete_branch(branch: &str) -> (r: CommandRunner)
    ensures
        r@ == git_call(seq!["branch"@, "-D"@, branch@]),
{
    let r = CommandRunner::git().arg("branch").arg("-D").arg(branch);
    assert(r@.args =~= seq!["branch"@, "-D"@, branch@]);
    r
}

/// Asks whether the branch exists; the run succeeds where it does.
pub fn branch_exists(branch: &str) -> (r: CommandRunner)
    ensures
        r@ == git_call(
            seq!["show-ref"@, "--verify"@, "--quiet"@, "refs/heads/"@ + branch@],
        ),
{
    let mut reference = String::from_str("refs/heads/");
    reference.append(branch);
    let r = CommandRunner::git().arg("show-ref").arg("--verify").arg("--quiet").arg(
        reference.as_str(),
    );
    assert(r@.args =~= seq!["show-ref"@, "--verify"@, "--quiet"@, "refs/heads/"@ + branch@]);
    r
}

/// Lists the branches that match `pattern`.
pub fn find_branches(pattern: &str) -> (r: CommandRunner)
    ensures
        r@ == git_call(seq!["branch"@, "--list"@, pattern@]),
{
    let r = CommandRunner::git().arg("branch").arg("--list").arg(pattern);
    assert(r@.args =~= seq!["branch"@, "--list"@, pattern@]);
    r
}

/// Asks in `worktree_path` whether `branch` names a commit; the run succeeds where it
/// does.
pub fn verify_branch(worktree_path: &str, branch: &str) -> (r: CommandRunner)
    ensures
        r@ == git_call_in(worktree_path@, seq!["rev-parse"@, "--verify"@, branch@]),
{
    let r = CommandRunner::git().current_dir(worktree_path).arg("rev-parse").arg("--verify").arg(
        branch,
    );
    assert(r@.args =~= seq!["rev-parse"@, "--verify"@, branch@]);
    r
}

/// The branch that changes are measured against: `main` where it exists, else `master`
/// where that exists.
pub fn get_default_branch(main_exists: bool, master_exists: bool) -> (r: Option<&'static str>)
    ensures
        main_exists ==> r is Some && r->Some_0@ == "main"@,
        !main_exists && master_exists ==> r is Some && r->Some_0@ == "master"@,
        !main_exists && !master_exists ==> r is None,
{
    if main_exists {
        Some("main")
    } else if master_exists {
        Some("master")
    } else {
        None
    }
}

/// The branch that the changes of a worktree are measured against: the default branch,
/// and `main` where none was found.
pub fn base_branch(main_exists: bool, master_exists: bool) -> (r: &'static str)
    ensures
        r@ == if !main_exists && master_exists {
            "master"@
        } else {
            "main"@
        },
{
    match get_default_branch(main_exists, master_exists) {
        Some(b) => b,
        None => "main",
    }
}

/// Sums up in `worktree_path` what changed on the branch since it left `base`.
pub fn get_diff_stats(worktree_path: &str, base: &str) -> (r: CommandRunner)
    ensures
        r@ == git_call_in(worktree_path@, seq!["diff"@, "--shortstat"@, base@ + "...HEAD"@]),
{
    let mut range = String::from_str(base);
    range.append("...HEAD");
    let r = CommandRunner::git().current_dir(worktree_path).arg("diff").arg("--shortstat").arg(
        range.as_str(),
    );
    assert(r@.args =~= seq!["diff"@, "--shortstat"@, base@ + "...HEAD"@]);
    r
}

/// Sums up in `worktree_path` what is changed and not committed.
pub fn get_uncommitted_stats(worktree_path: &str) -> (r: CommandRunner)
    ensures
        r@ == git_call_in(worktree_path@, seq!["diff"@, "--shortstat"@, "HEAD"@]),
{
    let r = CommandRunner::git().current_dir(worktree_path).arg("diff").arg("--shortstat").arg(
        "HEAD",
    );
    assert(r@.args =~= seq!["diff"@, "--shortstat"@, "HEAD"@]);
    r
}

/// Counts in `worktree_path` the commits on the branch that `base_branch` lacks.
pub fn get_commit_count(worktree_path: &str, base_branch: &str) -> (r: CommandRunner)
    ensures
        r@ == git_call_in(
            worktree_path@,
            seq!["rev-list"@, "--count"@, base_branch@ + "..HEAD"@],
        ),
{
    let mut range = String::from_str(base_branch);
    range.append("..HEAD");
    let r = CommandRunner::git().current_dir(worktree_path).arg("rev-list").arg("--count").arg(
        range.as_str(),
    );
    assert(r@.args =~= seq!["rev-list"@, "--count"@, base_branch@ + "..HEAD"@]);
    r
}

/// Lists in `worktree_path` the files that are changed, one to a line.
pub fn has_conflicts(worktree_path: &str) -> (r: CommandRunner)
    ensures
        r@ == git_call_in(worktree_path@, seq!["status"@, "--porcelain"@]),
{
    let r = CommandRunner::git().current_dir(worktree_path).arg("status").arg("--porcelain");
    assert(r@.args =~= seq!["status"@, "--porcelain"@]);
    r
}

/// How many characters at the start of `p` are no white space.
pub open spec fn word_len(p: Seq<char>) -> nat
    decreases p.len(),
{
    if p.len() > 0 && !is_space(p[0]) {
        1 + word_len(p.drop_first())
    } else {
        0
    }
}

/// The number that the first word of `p` writes; 0 where it writes none.
pub open spec fn leading_count(p: Seq<char>) -> int {
    match int_of(p.take(word_len(p) as int)) {
        Some(n) => n,
        None => 0,
    }
}

/// The insertions and deletions after one more part of a summary: a part that speaks of
/// insertions sets the first, one that speaks of deletions and not of insertions the
/// second.
pub open spec fn after_part(acc: (int, int), part: Seq<char>) -> (int, int) {
    let p = trimmed(part);
    if has_infix(p, "insertion"@) {
        (leading_count(p), acc.1)
    } else if has_infix(p, "deletion"@) {
        (acc.0, leading_count(p))
    } else {
        acc
    }
}

/// The insertions and deletions that the parts of a summary report.
pub open spec fn stats_over(parts: Seq<Seq<char>>) -> (int, int)
    decreases parts.len(),
{
    if parts.len() == 0 {
        (0, 0)
    } else {
        after_part(stats_over(parts.drop_last()), parts.last())
    }
}

/// The insertions and deletions that a `--shortstat` summary reports; none for a summary
/// that is empty but for white space.
pub open spec fn diff_stats(output: Seq<char>) -> Option<(int, int)> {
    if trimmed(output).len() == 0 {
        None
    } else {
        Some(stats_over(split_on(trimmed(output), ',')))
    }
}

/// The number that the first word of `p[a..b]` writes; 0 where it writes none.
fn count_at(p: &Vec<char>, a: usize, b: usize) -> (r: i32)
    requires
        a <= b <= p.len(),
    ensures
        r == leading_count(p@.subrange(a as int, b as int)),
{
    let ghost w = p@.subrange(a as int, b as int);
    let mut e: usize = a;
    assert(w.skip(0) =~= w);
    while e < b && !char_is_space(p[e])
        invariant
            a <= e <= b <= p.len(),
            w == p@.subrange(a as int, b as int),
            word_len(w) == (e - a) + word_len(w.skip(e - a)),
        decreases b - e,
    {
        assert(w.skip(e - a)[0] == p@[e as int]);
        assert(w.skip(e - a).drop_first() =~= w.skip(e + 1 - a));
        e += 1;
    }
    proof {
        if e < b {
            assert(w.skip(e - a)[0] == p@[e as int]);
        }
        assert(word_len(w.skip(e - a)) == 0);
        assert(w.take(e - a) =~= p@.subrange(a as int, e as int));
    }
    match parse_int(p, a, e) {
        Some(n) => n,
        None => 0,
    }
}

/// Reads the summary that `git diff --shortstat` prints, such as
/// `3 files changed, 10 insertions(+), 5 deletions(-)`.
pub fn parse_diff_stats(output: &str) -> (r: Option<(i32, i32)>)
    ensures
        match diff_stats(output@) {
            Some(s) => r is Some && r->Some_0.0 == s.0 && r->Some_0.1 == s.1,
            None => r is None,
        },
{
    let all = chars_of(output);
    assert(all@.subrange(0, all.len() as int) =~= all@);
    let (a, b) = trim_bounds(&all, 0, all.len());
    if a == b {
        return None;
    }
    let kept = crate::models::checks::chars_between(&all, a, b);
    let parts = split(&kept, ',');
    let insertion = chars_of("insertion");
    let deletion = chars_of("deletion");
    let mut ins: i32 = 0;
    let mut del: i32 = 0;
    let mut i: usize = 0;
    assert(texts(parts@).take(0) =~= Seq::<Seq<char>>::empty());
    while i < parts.len()
        invariant
            i <= parts.len(),
            insertion@ == "insertion"@,
            deletion@ == "deletion"@,
            (ins as int, del as int) == stats_over(texts(parts@).take(i as int)),
        decreases parts.len() - i,
    {
        proof {
            assert(texts(parts@).take(i + 1).drop_last() =~= texts(parts@).take(i as int));
            assert(texts(parts@).take(i + 1).last() == parts@[i as int]@);
        }
        let part = chars_of(parts[i].as_str());
        assert(part@.subrange(0, part.len() as int) =~= part@);
        let (x, y) = trim_bounds(&part, 0, part.len());
        let p = crate::models::checks::chars_between(&part, x, y);
        assert(p@.subrange(0, p.len() as int) =~= p@);
        if contains_text(&p, &insertion) {
            ins = count_at(&p, 0, p.len());
        } else if contains_text(&p, &deletion) {
            del = count_at(&p, 0, p.len());
        }
        i += 1;
    }
    assert(texts(parts@).take(parts.len() as int) =~= texts(parts@));
    Some((ins, del))
}

/// What is changed in a worktree: what the branch changed since it left its base, where
/// that could be read, else what is changed and not committed.
pub fn diff_stats_from(committed: Option<&str>, uncommitted: Option<&str>) -> (r: Option<
    (i32, i32),
>)
    ensures
        match (if committed is Some && diff_stats(committed->Some_0@) is Some {
            diff_stats(committed->Some_0@)
        } else if uncommitted is Some {
            diff_stats(uncommitted->Some_0@)
        } else {
            None
        }) {
            Some(s) => r is Some && r->Some_0.0 == s.0 && r->Some_0.1 == s.1,
            None => r is None,
        },
{
    match committed {
        Some(c) => {
            match parse_diff_stats(c) {
                Some(s) => {
                    return Some(s);
                },
                None => {},
            }
        },
        None => {},
    }
    match uncommitted {
        Some(u) => parse_diff_stats(u),
        None => None,
    }
}

/// Reads the number that `git rev-list --count` prints.
pub fn parse_commit_count(output: &str) -> (r: Option<i32>)
    ensures
        match int_of(trimmed(output@)) {
            Some(n) => r == Some(n as i32) && r->Some_0 == n,
            None => r is None,
        },
{
    let all = chars_of(output);
    assert(all@.subrange(0, all.len() as int) =~= all@);
    let (a, b) = trim_bounds(&all, 0, all.len());
    parse_int(&all, a, b)
}

/// Whether a line of `git status --porcelain` tells of a file with a merge conflict: one
/// of its first two characters is `U`, or both are `A`, or both are `D`.
pub open spec fn unmerged(line: Seq<char>) -> bool {
    line.len() >= 2 && (line[0] == 'U' || line[1] == 'U' || (line[0] == 'A' && line[1] == 'A')
        || (line[0] == 'D' && line[1] == 'D'))
}

/// Whether the output of `git status --porcelain` tells of a merge conflict.
pub fn conflicts_in(output: &str) -> (r: bool)
    ensures
        r == exists|i: int|
            0 <= i < lines_of(output@).len() && unmerged(#[trigger] lines_of(output@)[i]),
{
    let all = lines(output);
    let mut i: usize = 0;
    while i < all.len()
        invariant
            i <= all.len(),
            texts(all@) == lines_of(output@),
            forall|j: int| 0 <= j < i ==> !unmerged(#[trigger] lines_of(output@)[j]),
        decreases all.len() - i,
    {
        let line = chars_of(all[i].as_str());
        assert(texts(all@)[i as int] == line@);
        if line.len() >= 2 {
            let x = line[0];
            let y = line[1];
            if x == 'U' || y == 'U' || (x == 'A' && y == 'A') || (x == 'D' && y == 'D') {
                return true;
            }
        }
        i += 1;
    }
    false
}

/// Whether a run of `has_conflicts` that ended as `outcome` tells of a merge conflict: it
/// does where the run succeeded and its output tells of one. A run that failed tells of
/// none.
pub fn conflicts_found(outcome: &Outcome) -> (r: bool)
    ensures
        r == (outcome.success && exists|i: int|
            0 <= i < lines_of(outcome.stdout@).len() && unmerged(
                #[trigger] lines_of(outcome.stdout@)[i],
            )),
{
    outcome.success && conflicts_in(outcome.stdout.as_str())
}

/// What git reports of a worktree, from what was read of it: no changes and no commits
/// where they could not be read.
pub fn get_worktree_metrics(
    stats: Option<(i32, i32)>,
    commits_on_main: Option<i32>,
    commits_on_master: Option<i32>,
    has_conflict: bool,
) -> (r: GitMetrics)
    ensures
        r.additions == (match stats {
            Some(s) => s.0,
            None => 0,
        }),
        r.deletions == (match stats {
            Some(s) => s.1,
            None => 0,
        }),
        r.commits == (match commits_on_main {
            Some(n) => n,
            None => match commits_on_master {
                Some(n) => n,
                None => 0,
            },
        }),
        r.has_conflict == has_conflict,
{
    let (additions, deletions) = match stats {
        Some(s) => s,
        None => (0, 0),
    };
    let commits = match commits_on_main {
        Some(n) => n,
        None => match commits_on_master {
            Some(n) => n,
            None => 0,
        },
    };
    GitMetrics { additions, deletions, commits, has_conflict }
}

/// `line` without any `* ` at its start.
pub open spec fn unstarred(line: Seq<char>) -> Seq<char>
    decreases line.len(),
{
    if has_prefix(line, seq!['*', ' ']) {
        unstarred(line.skip(2))
    } else {
        line
    }
}

/// The branch that a line of `git branch --list` names: the line without the white space
/// around it and without the mark of the current branch.
pub open spec fn branch_on(line: Seq<char>) -> Seq<char> {
    unstarred(trimmed(line))
}

/// The branches that the lines name, in order; lines that name none are left out.
pub open spec fn branches_on(all: Seq<Seq<char>>) -> Seq<Seq<char>>
    decreases all.len(),
{
    if all.len() == 0 {
        Seq::<Seq<char>>::empty()
    } else {
        let rest = branches_on(all.drop_last());
        if branch_on(all.last()).len() > 0 {
            rest.push(branch_on(all.last()))
        } else {
            rest
        }
    }
}

/// Reads the branches that `git branch --list` prints.
pub fn parse_branch_list(output: &str) -> (r: Vec<String>)
    ensures
        texts(r@) == branches_on(lines_of(output@)),
{
    let all = lines(output);
    let star: Vec<char> = vec!['*', ' '];
    assert(star@ =~= seq!['*', ' ']);
    let mut r: Vec<String> = Vec::new();
    let mut i: usize = 0;
    assert(texts(all@).take(0) =~= Seq::<Seq<char>>::empty());
    assert(texts(r@) =~= Seq::<Seq<char>>::empty());
    while i < all.len()
        invariant
            i <= all.len(),
            star@ == seq!['*', ' '],
            texts(all@) == lines_of(output@),
            texts(r@) == branches_on(texts(all@).take(i as int)),
        decreases all.len() - i,
    {
        proof {
            assert(texts(all@).take(i + 1).drop_last() =~= texts(all@).take(i as int));
            assert(texts(all@).take(i + 1).last() == all@[i as int]@);
        }
        let line = chars_of(all[i].as_str());
        assert(line@.subrange(0, line.len() as int) =~= line@);
        let (a, b) = trim_bounds(&line, 0, line.len());
        let t = crate::models::checks::chars_between(&line, a, b);
        let mut from: usize = 0;
        assert(t@.skip(0) =~= t@);
        while matches_at(&t, &star, from)
            invariant
                from <= t.len(),
                star@ == seq!['*', ' '],
                unstarred(t@) == unstarred(t@.skip(from as int)),
            decreases t.len() - from,
        {
            proof {
                let rest = t@.skip(from as int);
                assert(rest.subrange(0, 2) =~= t@.subrange(from as int, from + 2));
                assert(rest.skip(2) =~= t@.skip(from + 2));
            }
            from += 2;
        }
        proof {
            let rest = t@.skip(from as int);
            if rest.len() >= 2 {
                assert(rest.subrange(0, 2) =~= t@.subrange(from as int, from + 2));
            }
            assert(!has_prefix(rest, star@));
            assert(rest =~= t@.subrange(from as int, t.len() as int));
        }
        if from < t.len() {
            let ghost before = r@;
            let name = string_of_range(&t, from, t.len());
            r.push(name);
            assert(texts(r@) =~= texts(before).push(name@));
        }
        i += 1;
    }
    assert(texts(all@).take(all.len() as int) =~= texts(all@));
    r
}

/// The branches that a run of `find_branches` that ended as `outcome` found: those that
/// its output names where it succeeded, and none where it failed.
pub fn branches_found(outcome: &Outcome) -> (r: Vec<String>)
    ensures
        texts(r@) == if outcome.success {
            branches_on(lines_of(outcome.stdout@))
        } else {
            Seq::<Seq<char>>::empty()
        },
{
    if outcome.success {
        parse_branch_list(outcome.stdout.as_str())
    } else {
        let r: Vec<String> = Vec::new();
        assert(texts(r@) =~= Seq::<Seq<char>>::empty());
        r
    }
}

/// For how many seconds nothing has changed in a worktree that was last changed at
/// `modified_secs`, at the time `now_secs`; 0 where the change lies ahead. Nothing is
/// known of a worktree whose time of change could not be read.
pub fn get_last_activity(now_secs: u64, modified_secs: Option<u64>) -> (r: Option<u64>)
    ensures
        r == match modified_secs {
            Some(m) => Some(
                if now_secs >= m {
                    (now_secs - m) as u64
                } else {
                    0u64
                },
            ),
            None => None,
        },
{
    match modified_secs {
        Some(m) => Some(
            if now_secs >= m {
                now_secs - m
            } else {
                0
            },
        ),
        None => None,
    }
}

} // verus!
