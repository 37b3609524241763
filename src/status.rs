//! Per-repository status queries, their aggregation and the summary.

use crate::clone::{call, current_branch_args};
use crate::command::{says_exists, texts, GitCall, GitCommand, Reply, ReplyView};
use crate::order::{lemma_path_lt_irreflexive, lemma_path_lt_transitive, path_less, path_lt};
use crate::repository::copy_path;
use crate::porcelain::{count_changes, lines, porcelain_counts, tally, ChangeCounts};
use crate::text::{
    decimal, join_parts, join_path, joined, owned, path_join, push_count, strip_back, trim_end,
};
use vstd::prelude::*;
use vstd::string::*;

verus! {

/// The state of one repository's working tree.
#[derive(Debug, Clone)]
pub struct RepoStatus {
    /// The repository's path relative to the workspace root, as components.
    pub path_relative: Vec<String>,
    pub has_changes: bool,
    pub modified_files: usize,
    pub staged_files: usize,
    pub untracked_files: usize,
    pub current_branch: String,
}

/// A `RepoStatus` seen through views.
pub struct StatusView {
    pub path: Seq<Seq<char>>,
    pub has_changes: bool,
    pub modified: nat,
    pub staged: nat,
    pub untracked: nat,
    pub branch: Seq<char>,
}

impl View for RepoStatus {
    type V = StatusView;

    open spec fn view(&self) -> StatusView {
        StatusView {
            path: texts(self.path_relative@),
            has_changes: self.has_changes,
            modified: self.modified_files as nat,
            staged: self.staged_files as nat,
            untracked: self.untracked_files as nat,
            branch: self.current_branch@,
        }
    }
}

/// The status record of the repository at `path` on `branch` with change
/// counts (modified, staged, untracked).
pub open spec fn status_of(path: Seq<Seq<char>>, branch: Seq<char>, c: (nat, nat, nat)) -> StatusView {
    StatusView {
        path,
        has_changes: c.0 > 0 || c.1 > 0 || c.2 > 0,
        modified: c.0,
        staged: c.1,
        untracked: c.2,
        branch,
    }
}

impl RepoStatus {
    /// The record of a repository with the given branch and change counts;
    /// it has changes exactly when one of the counts is non-zero.
    pub fn new(path_relative: Vec<String>, current_branch: String, counts: ChangeCounts) -> (r: RepoStatus)
        ensures
            r@ == status_of(texts(path_relative@), current_branch@, (counts.modified as nat, counts.staged as nat, counts.untracked as nat)),
    {
        RepoStatus {
            path_relative,
            has_changes: counts.modified > 0 || counts.staged > 0 || counts.untracked > 0,
            modified_files: counts.modified,
            staged_files: counts.staged,
            untracked_files: counts.untracked,
            current_branch,
        }
    }

    /// The relative path with `/` between components.
    pub fn path_text(&self) -> (r: String)
        ensures
            r@ == joined(self@.path, "/"@),
    {
        join_parts(&self.path_relative, "/")
    }
}

/// The fixed inputs of one status query.
pub struct StatusPlan {
    pub workspace_dir: Seq<char>,
    pub path: Seq<Seq<char>>,
}

/// Which reply the query waits for.
#[derive(Debug, Clone, Copy, PartialEq, Eq, Structural)]
pub enum StatusStage {
    CheckMarker,
    Branch,
    Detached,
    Porcelain,
    Finished,
}

/// What a status query asks its driver to do next.
#[derive(Debug)]
pub enum StatusAction {
    /// Report whether this path exists.
    CheckExists(String),
    /// Run git, capturing its standard output.
    Output(GitCommand),
    /// The query is complete: the record, or `None` when the directory is no
    /// repository or a query failed.
    Finish(Option<RepoStatus>),
}

/// A `StatusAction` seen through views.
pub enum StatusStep {
    CheckExists(Seq<char>),
    Output(GitCall),
    Finish(Option<StatusView>),
}

impl View for StatusAction {
    type V = StatusStep;

    open spec fn view(&self) -> StatusStep {
        match self {
            StatusAction::CheckExists(p) => StatusStep::CheckExists(p@),
            StatusAction::Output(c) => StatusStep::Output(c@),
            StatusAction::Finish(None) => StatusStep::Finish(None),
            StatusAction::Finish(Some(s)) => StatusStep::Finish(Some(s@)),
        }
    }
}

/// The repository's directory.
pub open spec fn repo_dir(q: StatusPlan) -> Seq<char> {
    join_path(q.workspace_dir, joined(q.path, "/"@))
}

/// Its `.git` entry.
pub open spec fn marker_path(q: StatusPlan) -> Seq<char> {
    join_path(repo_dir(q), ".git"@)
}

pub open spec fn short_head_args() -> Seq<Seq<char>> {
    seq!["rev-parse"@, "--short"@, "HEAD"@]
}

pub open spec fn porcelain_args() -> Seq<Seq<char>> {
    seq!["status"@, "--porcelain"@]
}

/// The output, without trailing whitespace, of a reply that is a successful
/// process.
pub open spec fn good_output(r: ReplyView) -> Option<Seq<char>> {
    match r {
        ReplyView::Ran { code: Some(c), stdout, .. } => if c == 0 {
            Some(strip_back(stdout))
        } else {
            None
        },
        _ => None,
    }
}

/// The branch label of a detached HEAD, given the reply to `rev-parse --short HEAD`.
pub open spec fn detached_label(r: ReplyView) -> Seq<char> {
    match good_output(r) {
        Some(h) => "(detached at "@ + h + ")"@,
        None => "(detached)"@,
    }
}

/// The query's transition: from stage `s`, the branch found so far and the
/// driver's reply `r` to the next stage, branch and action.
pub open spec fn status_next(q: StatusPlan, s: StatusStage, branch: Seq<char>, r: ReplyView) -> (StatusStage, Seq<char>, StatusStep) {
    match s {
        StatusStage::CheckMarker => if says_exists(r) {
            (StatusStage::Branch, branch, StatusStep::Output(call(repo_dir(q), current_branch_args())))
        } else {
            (StatusStage::Finished, branch, StatusStep::Finish(None))
        },
        StatusStage::Branch => match good_output(r) {
            Some(b) => if b.len() > 0 {
                (StatusStage::Porcelain, b, StatusStep::Output(call(repo_dir(q), porcelain_args())))
            } else {
                (StatusStage::Detached, branch, StatusStep::Output(call(repo_dir(q), short_head_args())))
            },
            None => (StatusStage::Finished, branch, StatusStep::Finish(None)),
        },
        StatusStage::Detached => if r is IoFailed {
            (StatusStage::Finished, branch, StatusStep::Finish(None))
        } else {
            (StatusStage::Porcelain, detached_label(r), StatusStep::Output(call(repo_dir(q), porcelain_args())))
        },
        StatusStage::Porcelain => match r {
            ReplyView::Ran { code: Some(c), stdout, .. } => if c == 0 {
                (StatusStage::Finished, branch, StatusStep::Finish(Some(status_of(q.path, branch, porcelain_counts(stdout)))))
            } else {
                (StatusStage::Finished, branch, StatusStep::Finish(None))
            },
            _ => (StatusStage::Finished, branch, StatusStep::Finish(None)),
        },
        StatusStage::Finished => (StatusStage::Finished, branch, StatusStep::Finish(None)),
    }
}

/// The status query of one repository.
pub struct StatusQuery {
    workspace_dir: String,
    path: Vec<String>,
    branch: String,
    stage: StatusStage,
}

impl StatusQuery {
    pub closed spec fn plan(&self) -> StatusPlan {
        StatusPlan { workspace_dir: self.workspace_dir@, path: texts(self.path@) }
    }

    pub closed spec fn stage(&self) -> StatusStage {
        self.stage
    }

    pub closed spec fn branch(&self) -> Seq<char> {
        self.branch@
    }

    /// Starts the query of the repository at `path` (relative to
    /// `workspace_dir`); returns it with its first action.
    pub fn new(workspace_dir: &str, path: &Vec<String>) -> (r: (StatusQuery, StatusAction))
        ensures
            r.0.plan() == (StatusPlan { workspace_dir: workspace_dir@, path: texts(path@) }),
            r.0.stage() == StatusStage::CheckMarker,
            r.1@ == StatusStep::CheckExists(marker_path(r.0.plan())),
    {
        let q = StatusQuery {
            workspace_dir: owned(workspace_dir),
            path: copy_path(path),
            branch: String::new(),
            stage: StatusStage::CheckMarker,
        };
        let marker = path_join(q.repo_dir().as_str(), ".git");
        (q, StatusAction::CheckExists(marker))
    }

    fn repo_dir(&self) -> (r: String)
        ensures
            r@ == repo_dir(self.plan()),
    {
        let rel = join_parts(&self.path, "/");
        path_join(self.workspace_dir.as_str(), rel.as_str())
    }

    fn porcelain(&self) -> (r: GitCommand)
        ensures
            r@ == call(repo_dir(self.plan()), porcelain_args()),
    {
        let c = GitCommand::new(self.repo_dir().as_str()).arg("status").arg("--porcelain");
        assert(c@.args =~= porcelain_args());
        c
    }

    /// Whether the query is complete.
    pub fn is_finished(&self) -> (r: bool)
        ensures
            r == (self.stage() == StatusStage::Finished),
    {
        self.stage == StatusStage::Finished
    }

    /// Advances the query by the driver's reply to the last action.
    pub fn step(&mut self, reply: &Reply) -> (r: StatusAction)
        requires
            old(self).stage() != StatusStage::Finished,
        ensures
            final(self).plan() == old(self).plan(),
            (final(self).stage(), final(self).branch(), r@) == status_next(old(self).plan(), old(self).stage(), old(self).branch(), reply@),
    {
        match self.stage {
            StatusStage::CheckMarker => {
                if reply.says_exists() {
                    self.stage = StatusStage::Branch;
                    let c = GitCommand::new(self.repo_dir().as_str()).arg("branch").arg("--show-current");
                    assert(c@.args =~= current_branch_args());
                    StatusAction::Output(c)
                } else {
                    self.stage = StatusStage::Finished;
                    StatusAction::Finish(None)
                }
            },
            StatusStage::Branch => {
                match good_output_of(reply) {
                    Some(b) => {
                        if b.as_str().unicode_len() > 0 {
                            self.branch = b;
                            self.stage = StatusStage::Porcelain;
                            StatusAction::Output(self.porcelain())
                        } else {
                            self.stage = StatusStage::Detached;
                            let c = GitCommand::new(self.repo_dir().as_str()).arg("rev-parse").arg("--short").arg("HEAD");
                            assert(c@.args =~= short_head_args());
                            StatusAction::Output(c)
                        }
                    },
                    None => {
                        self.stage = StatusStage::Finished;
                        StatusAction::Finish(None)
                    },
                }
            },
            StatusStage::Detached => {
                if let Reply::IoFailed(_) = reply {
                    self.stage = StatusStage::Finished;
                    return StatusAction::Finish(None);
                }
                let label = match good_output_of(reply) {
                    Some(h) => {
                        let mut l = owned("(detached at ");
                        l.append(h.as_str());
                        l.append(")");
                        l
                    },
                    None => owned("(detached)"),
                };
                self.branch = label;
                self.stage = StatusStage::Porcelain;
                StatusAction::Output(self.porcelain())
            },
            StatusStage::Porcelain => {
                self.stage = StatusStage::Finished;
                match reply {
                    Reply::Ran(o) => {
                        if o.success() {
                            let counts = count_changes(o.stdout.as_str());
                            let path = copy_path(&self.path);
                            StatusAction::Finish(Some(RepoStatus::new(path, self.branch.clone(), counts)))
                        } else {
                            StatusAction::Finish(None)
                        }
                    },
                    _ => StatusAction::Finish(None),
                }
            },
            StatusStage::Finished => StatusAction::Finish(None),
        }
    }
}

/// The output, without trailing whitespace, of a reply that is a successful
/// process.
fn good_output_of(reply: &Reply) -> (r: Option<String>)
    ensures
        match good_output(reply@) {
            Some(t) => r matches Some(s) && s@ == t,
            None => r is None,
        },
{
    match reply {
        Reply::Ran(o) => {
            if o.success() {
                Some(trim_end(o.stdout.as_str()))
            } else {
                None
            }
        },
        _ => None,
    }
}

} // verus!

verus! {

/// The views of a list of optional records.
pub open spec fn option_views(rs: Seq<Option<RepoStatus>>) -> Seq<Option<StatusView>> {
    rs.map_values(|o: Option<RepoStatus>| match o {
        Some(s) => Some(s@),
        None => None,
    })
}

/// The views of a list of records.
pub open spec fn status_views(rs: Seq<RepoStatus>) -> Seq<StatusView> {
    rs.map_values(|s: RepoStatus| s@)
}

/// The records that are present, in order.
pub open spec fn present(rs: Seq<Option<StatusView>>) -> Seq<StatusView>
    decreases rs.len(),
{
    if rs.len() == 0 {
        Seq::empty()
    } else {
        present(rs.drop_last()) + match rs.last() {
            Some(s) => seq![s],
            None => Seq::empty(),
        }
    }
}

/// Records in non-decreasing path order.
pub open spec fn sorted_by_path(ss: Seq<StatusView>) -> bool {
    forall|i: int, j: int| 0 <= i < j < ss.len() ==> !path_lt((#[trigger] ss[j]).path, (#[trigger] ss[i]).path)
}

/// Inserts `x` into the path-ordered `out`, after every record whose path
/// does not follow `x`'s.
fn insert_by_path(out: &mut Vec<RepoStatus>, x: RepoStatus)
    requires
        sorted_by_path(status_views(old(out)@)),
    ensures
        sorted_by_path(status_views(final(out)@)),
        status_views(final(out)@).to_multiset() == status_views(old(out)@).to_multiset().insert(x@),
{
    broadcast use vstd::seq_lib::group_to_multiset_ensures;

    let ghost olds = status_views(out@);
    let mut p: usize = 0;
    while p < out.len() && !path_less(&x.path_relative, &out[p].path_relative)
        invariant
            p <= out@.len(),
            out@ == old(out)@,
            olds == status_views(out@),
            forall|a: int| 0 <= a < p ==> !path_lt(x@.path, (#[trigger] olds[a]).path),
        decreases out@.len() - p,
    {
        p = p + 1;
    }
    let ghost xv = x@;
    out.insert(p, x);
    proof {
        let ns = status_views(out@);
        assert(ns =~= olds.insert(p as int, xv));
        assert forall|a: int, b: int| 0 <= a < b < ns.len() implies !path_lt((#[trigger] ns[b]).path, (#[trigger] ns[a]).path) by {
            if b < p {
            } else if a < p && b == p {
            } else if a < p && b > p {
                assert(ns[b] == olds[b - 1]);
            } else if a == p {
                assert(ns[b] == olds[b - 1]);
                assert(path_lt(xv.path, olds[p as int].path));
                if path_lt(olds[b - 1].path, xv.path) {
                    lemma_path_lt_transitive(olds[b - 1].path, xv.path, olds[p as int].path);
                    if b - 1 > p {
                        assert(!path_lt(olds[b - 1].path, olds[p as int].path));
                    } else {
                        lemma_path_lt_irreflexive(olds[p as int].path);
                    }
                }
            } else {
                assert(ns[a] == olds[a - 1] && ns[b] == olds[b - 1]);
            }
        }
    }
}

/// The status list of a workspace from the outcomes of its per-repository
/// queries: the records that were produced, sorted by path. (Repositories
/// have distinct paths, so this fixes the list.)
pub fn collect_statuses(results: Vec<Option<RepoStatus>>) -> (r: Vec<RepoStatus>)
    ensures
        status_views(r@).to_multiset() == present(option_views(results@)).to_multiset(),
        sorted_by_path(status_views(r@)),
{
    broadcast use vstd::seq_lib::group_to_multiset_ensures;

    let ghost rs = option_views(results@);
    let mut out: Vec<RepoStatus> = Vec::new();
    let mut results = results;
    let n = results.len();
    assert(rs.skip(0) =~= rs);
    assert(status_views(out@) =~= Seq::<StatusView>::empty());
    let mut i: usize = 0;
    while i < n
        invariant
            n == rs.len(),
            results@.len() == n - i,
            option_views(results@) == rs.skip(i as int),
            i <= n,
            status_views(out@).to_multiset() == present(rs.take(i as int)).to_multiset(),
            sorted_by_path(status_views(out@)),
        decreases n - i,
    {
        let ghost rest = results@;
        let item = results.remove(0);
        proof {
            assert(rs.take(i as int + 1).drop_last() =~= rs.take(i as int));
            assert(option_views(rest)[0] == rs.skip(i as int)[0]);
            assert(rs[i as int] == match item {
                Some(s) => Some(s@),
                None => None,
            });
            assert(results@ == rest.remove(0));
            assert forall|k: int| 0 <= k < results@.len() implies option_views(results@)[k] == rs.skip(i as int + 1)[k] by {
                assert(results@[k] == rest[k + 1]);
                assert(option_views(rest)[k + 1] == rs.skip(i as int)[k + 1]);
            }
            assert(option_views(results@) =~= rs.skip(i as int + 1));
        }
        match item {
            Some(s) => {
                let ghost sv = s@;
                insert_by_path(&mut out, s);
                proof {
                    let before = present(rs.take(i as int));
                    assert(present(rs.take(i as int + 1)) =~= before.push(sv));
                    vstd::seq_lib::to_multiset_build(before, sv);
                    assert(present(rs.take(i as int + 1)).to_multiset() == before.to_multiset().insert(sv));
                }
            },
            None => {
                assert(present(rs.take(i as int + 1)) =~= present(rs.take(i as int)));
            },
        }
        i = i + 1;
    }
    assert(rs.take(n as int) =~= rs);
    out
}

} // verus!

verus! {

/// How many records have changes.
pub open spec fn count_changed(ss: Seq<StatusView>) -> nat
    decreases ss.len(),
{
    if ss.len() == 0 {
        0
    } else {
        count_changed(ss.drop_last()) + if ss.last().has_changes { 1nat } else { 0nat }
    }
}

/// The lines describing one repository with changes.
pub open spec fn entry_lines(s: StatusView) -> Seq<Seq<char>> {
    seq!["  "@ + joined(s.path, "/"@) + " ("@ + s.branch + ")"@]
        + (if s.staged > 0 { seq!["    "@ + decimal(s.staged) + " file(s) with staged changes"@] } else { Seq::empty() })
        + (if s.modified > 0 { seq!["    "@ + decimal(s.modified) + " file(s) with unstaged changes"@] } else { Seq::empty() })
        + (if s.untracked > 0 { seq!["    "@ + decimal(s.untracked) + " untracked file(s)"@] } else { Seq::empty() })
        + seq![Seq::<char>::empty()]
}

/// The lines describing every repository with changes, in order.
pub open spec fn changed_lines(ss: Seq<StatusView>) -> Seq<Seq<char>>
    decreases ss.len(),
{
    if ss.len() == 0 {
        Seq::empty()
    } else {
        changed_lines(ss.drop_last()) + if ss.last().has_changes { entry_lines(ss.last()) } else { Seq::empty() }
    }
}

/// The status summary of a workspace, line by line.
pub open spec fn report_lines(ss: Seq<StatusView>) -> Seq<Seq<char>> {
    let changed = count_changed(ss);
    let clean = (ss.len() - changed) as nat;
    seq![
        "Workspace status:"@,
        "  "@ + decimal(ss.len()) + " repositories total"@,
        "  "@ + decimal(clean) + " clean, "@ + decimal(changed) + " with changes"@,
        Seq::<char>::empty(),
    ] + if changed == 0 {
        seq!["All repositories are clean."@]
    } else {
        seq!["Repositories with changes:"@, Seq::<char>::empty()] + changed_lines(ss)
    }
}

/// The character sequences of a list of lines.
pub open spec fn line_views(v: Seq<String>) -> Seq<Seq<char>> {
    v.map_values(|s: String| s@)
}

fn push_line(out: &mut Vec<String>, line: String)
    ensures
        line_views(final(out)@) == line_views(old(out)@).push(line@),
{
    out.push(line);
    assert(line_views(final(out)@) =~= line_views(old(out)@).push(line@));
}

fn push_count_line(out: &mut Vec<String>, n: usize, words: &str)
    requires
        n > 0,
    ensures
        line_views(final(out)@) == line_views(old(out)@).push("    "@ + decimal(n as nat) + words@),
{
    let mut l = owned("    ");
    push_count(&mut l, n);
    l.append(words);
    push_line(out, l);
}

fn append_entry(out: &mut Vec<String>, s: &RepoStatus)
    ensures
        line_views(final(out)@) == line_views(old(out)@) + entry_lines(s@),
{
    let ghost start = line_views(out@);
    let mut head = owned("  ");
    head.append(s.path_text().as_str());
    head.append(" (");
    head.append(s.current_branch.as_str());
    head.append(")");
    push_line(out, head);
    let ghost mut expect = start + seq!["  "@ + joined(s@.path, "/"@) + " ("@ + s@.branch + ")"@];
    assert(line_views(out@) =~= expect);
    if s.staged_files > 0 {
        push_count_line(out, s.staged_files, " file(s) with staged changes");
    }
    proof {
        expect = expect + (if s@.staged > 0 { seq!["    "@ + decimal(s@.staged) + " file(s) with staged changes"@] } else { Seq::empty() });
        assert(line_views(out@) =~= expect);
    }
    if s.modified_files > 0 {
        push_count_line(out, s.modified_files, " file(s) with unstaged changes");
    }
    proof {
        expect = expect + (if s@.modified > 0 { seq!["    "@ + decimal(s@.modified) + " file(s) with unstaged changes"@] } else { Seq::empty() });
        assert(line_views(out@) =~= expect);
    }
    if s.untracked_files > 0 {
        push_count_line(out, s.untracked_files, " untracked file(s)");
    }
    proof {
        expect = expect + (if s@.untracked > 0 { seq!["    "@ + decimal(s@.untracked) + " untracked file(s)"@] } else { Seq::empty() });
        assert(line_views(out@) =~= expect);
    }
    push_line(out, String::new());
    assert(line_views(out@) =~= start + entry_lines(s@));
}

/// The status summary of a workspace: totals, then each repository with
/// changes and its counts, or a note that all are clean.
pub fn status_report(statuses: &Vec<RepoStatus>) -> (r: Vec<String>)
    ensures
        line_views(r@) == report_lines(status_views(statuses@)),
{
    let ghost ss = status_views(statuses@);
    let n = statuses.len();
    let mut changed: usize = 0;
    let mut i: usize = 0;
    while i < n
        invariant
            n == ss.len(),
            ss == status_views(statuses@),
            i <= n,
            changed == count_changed(ss.take(i as int)),
            changed <= i,
        decreases n - i,
    {
        assert(ss.take(i as int + 1).drop_last() =~= ss.take(i as int));
        if statuses[i].has_changes {
            changed = changed + 1;
        }
        i = i + 1;
    }
    assert(ss.take(n as int) =~= ss);
    let mut out: Vec<String> = Vec::new();
    push_line(&mut out, owned("Workspace status:"));
    let mut l = owned("  ");
    push_count(&mut l, n);
    l.append(" repositories total");
    push_line(&mut out, l);
    let mut l = owned("  ");
    push_count(&mut l, n - changed);
    l.append(" clean, ");
    push_count(&mut l, changed);
    l.append(" with changes");
    push_line(&mut out, l);
    push_line(&mut out, String::new());
    let ghost head = line_views(out@);
    if changed == 0 {
        push_line(&mut out, owned("All repositories are clean."));
    } else {
        push_line(&mut out, owned("Repositories with changes:"));
        push_line(&mut out, String::new());
        let ghost intro = line_views(out@);
        let mut k: usize = 0;
        while k < n
            invariant
                n == ss.len(),
                ss == status_views(statuses@),
                k <= n,
                line_views(out@) == intro + changed_lines(ss.take(k as int)),
            decreases n - k,
        {
            assert(ss.take(k as int + 1).drop_last() =~= ss.take(k as int));
            assert(ss.take(k as int + 1).last() == statuses@[k as int]@);
            if statuses[k].has_changes {
                append_entry(&mut out, &statuses[k]);
            }
            assert(line_views(out@) =~= intro + changed_lines(ss.take(k as int + 1)));
            k = k + 1;
        }
    }
    assert(line_views(out@) =~= report_lines(ss));
    out
}

} // verus!

verus! {

/// A workspace without repositories is summarised as `0 repositories total`
/// and all clean.
pub proof fn lemma_empty_workspace_report()
    ensures
        report_lines(Seq::empty())[1] == "  0 repositories total"@,
        report_lines(Seq::empty())[2] == "  0 clean, 0 with changes"@,
        report_lines(Seq::empty()).last() == "All repositories are clean."@,
        report_lines(Seq::empty()).len() == 5,
{
    reveal_strlit("  0 repositories total");
    reveal_strlit("  0 clean, 0 with changes");
    reveal_strlit("  ");
    reveal_strlit(" repositories total");
    reveal_strlit(" clean, ");
    reveal_strlit(" with changes");
    assert(decimal(0) =~= seq!['0']);
    assert(report_lines(Seq::empty())[1] =~= "  0 repositories total"@);
    assert(report_lines(Seq::empty())[2] =~= "  0 clean, 0 with changes"@);
}

proof fn lemma_tally_of_entryless(ls: Seq<Seq<char>>)
    requires
        forall|k: int| 0 <= k < ls.len() ==> (#[trigger] ls[k]).len() < 2,
    ensures
        tally(ls) == (0nat, 0nat, 0nat),
    decreases ls.len(),
{
    if ls.len() > 0 {
        lemma_tally_of_entryless(ls.drop_last());
        assert(ls.last() == ls[ls.len() - 1]);
    }
}

/// A repository whose status output lists no file (no line of two or more
/// characters) has all three counters at zero and no changes; and in every
/// record, having changes is the same as a non-zero counter.
pub proof fn lemma_clean_repository(path: Seq<Seq<char>>, branch: Seq<char>, output: Seq<char>, c: (nat, nat, nat))
    ensures
        (forall|k: int| 0 <= k < lines(output).len() ==> (#[trigger] lines(output)[k]).len() < 2) ==> ({
            let s = status_of(path, branch, porcelain_counts(output));
            !s.has_changes && s.modified == 0 && s.staged == 0 && s.untracked == 0
        }),
        !status_of(path, branch, c).has_changes <==> c == (0nat, 0nat, 0nat),
{
    if forall|k: int| 0 <= k < lines(output).len() ==> (#[trigger] lines(output)[k]).len() < 2 {
        lemma_tally_of_entryless(lines(output));
    }
}

} // verus!

verus! {

/// A repository with no pending changes gets a record with no changes and all
/// three counters at zero through the status query: its `.git` entry leads to
/// the branch query; a branch name leads to the status query, and so does a
/// detached HEAD once its hash query has been started (a query that cannot
/// be started yields no record at all); and a successful status query that
/// lists no file finishes with that record, whatever the branch label.
pub proof fn lemma_clean_repository_query(
    q: StatusPlan,
    branch: Seq<char>,
    branch_reply: ReplyView,
    head_reply: ReplyView,
    porcelain: ReplyView,
)
    requires
        porcelain matches ReplyView::Ran { code: Some(c), stdout, .. } && c == 0
            && forall|k: int| 0 <= k < lines(stdout).len() ==> (#[trigger] lines(stdout)[k]).len() < 2,
    ensures
        status_next(q, StatusStage::CheckMarker, branch, ReplyView::Exists(true)) == (
            StatusStage::Branch,
            branch,
            StatusStep::Output(call(repo_dir(q), current_branch_args())),
        ),
        good_output(branch_reply) matches Some(b) && b.len() > 0 ==> status_next(q, StatusStage::Branch, branch, branch_reply) == (
            StatusStage::Porcelain,
            good_output(branch_reply)->0,
            StatusStep::Output(call(repo_dir(q), porcelain_args())),
        ),
        good_output(branch_reply) matches Some(b) && b.len() == 0 ==> status_next(q, StatusStage::Branch, branch, branch_reply).0
            == StatusStage::Detached,
        !(head_reply is IoFailed) ==> status_next(q, StatusStage::Detached, branch, head_reply) == (
            StatusStage::Porcelain,
            detached_label(head_reply),
            StatusStep::Output(call(repo_dir(q), porcelain_args())),
        ),
        status_next(q, StatusStage::Porcelain, branch, porcelain) == (
            StatusStage::Finished,
            branch,
            StatusStep::Finish(Some(status_of(q.path, branch, (0nat, 0nat, 0nat)))),
        ),
        !status_of(q.path, branch, (0nat, 0nat, 0nat)).has_changes,
{
    let stdout = porcelain->Ran_stdout;
    lemma_tally_of_entryless(lines(stdout));
}

} // verus!
