//! Running one command across every repository of a workspace.

use crate::command::{succeeded, texts, Reply, ReplyView};
use crate::error::{ErrorView, NutError};
use crate::repository::paths;
use crate::text::{join_parts, join_path, joined, owned, path_join, push_signed_decimal, signed_decimal};
use vstd::prelude::*;
use vstd::string::*;

verus! {

/// The fixed inputs of an apply run: the workspace and its repositories.
pub struct ApplyPlan {
    pub workspace_dir: Seq<char>,
    pub repos: Seq<Seq<Seq<char>>>,
}

/// What the runner asks its driver to do: report the previous repository's
/// failure (to standard error), print `lines` (to standard output), then run
/// the command in `run_in`, or, when there is none, end with `result`.
#[derive(Debug)]
pub struct ApplyStep {
    pub complaint: Option<NutError>,
    pub lines: Vec<String>,
    pub run_in: Option<String>,
    pub result: Result<(), NutError>,
}

/// An `ApplyStep` seen through views.
pub struct ApplyStepView {
    pub complaint: Option<ErrorView>,
    pub lines: Seq<Seq<char>>,
    pub run_in: Option<Seq<char>>,
    pub result: Result<(), ErrorView>,
}

impl View for ApplyStep {
    type V = ApplyStepView;

    open spec fn view(&self) -> ApplyStepView {
        ApplyStepView {
            complaint: match self.complaint {
                Some(e) => Some(e@),
                None => None,
            },
            lines: texts(self.lines@),
            run_in: match self.run_in {
                Some(d) => Some(d@),
                None => None,
            },
            result: match self.result {
                Ok(()) => Ok(()),
                Err(e) => Err(e@),
            },
        }
    }
}

/// The line announcing the run in repository `p`.
pub open spec fn header(p: Seq<Seq<char>>) -> Seq<char> {
    "==> "@ + joined(p, "/"@) + " <=="@
}

/// The working directory for repository `p`.
pub open spec fn apply_dir(ws: Seq<char>, p: Seq<Seq<char>>) -> Seq<char> {
    join_path(ws, joined(p, "/"@))
}

pub open spec fn no_repositories_notice() -> Seq<char> {
    "No repositories found in workspace"@
}

/// Why a process that ran did not succeed.
pub open spec fn failure_message(r: ReplyView) -> Seq<char> {
    match r {
        ReplyView::Ran { code: Some(c), .. } => "Command exited with status code "@ + signed_decimal(c as int),
        ReplyView::Ran { code: None, signal: Some(s), .. } => "Command terminated by signal "@ + signed_decimal(s as int),
        _ => "Command terminated for unknown reason"@,
    }
}

/// The first action of a run.
pub open spec fn apply_start(p: ApplyPlan) -> ApplyStepView {
    if p.repos.len() == 0 {
        ApplyStepView { complaint: None, lines: seq![no_repositories_notice()], run_in: None, result: Ok(()) }
    } else {
        ApplyStepView {
            complaint: None,
            lines: seq![header(p.repos[0])],
            run_in: Some(apply_dir(p.workspace_dir, p.repos[0])),
            result: Ok(()),
        }
    }
}

/// The runner's transition after the command ran (reply `r`) in repository
/// `i`: a failure to start it ends the run with that error; a failed command
/// is reported and the run goes on with the next repository.
pub open spec fn apply_next(p: ApplyPlan, i: int, r: ReplyView) -> (bool, ApplyStepView) {
    let repo = joined(p.repos[i], "/"@);
    if r is IoFailed {
        (true, ApplyStepView {
            complaint: None,
            lines: Seq::empty(),
            run_in: None,
            result: Err(ErrorView::CommandFailed { repo, message: r->IoFailed_0 }),
        })
    } else {
        let complaint = if succeeded(r) {
            None
        } else {
            Some(ErrorView::CommandFailed { repo, message: failure_message(r) })
        };
        if i + 1 < p.repos.len() {
            (false, ApplyStepView {
                complaint,
                lines: seq![Seq::empty(), header(p.repos[i + 1])],
                run_in: Some(apply_dir(p.workspace_dir, p.repos[i + 1])),
                result: Ok(()),
            })
        } else {
            (true, ApplyStepView { complaint, lines: seq![Seq::empty()], run_in: None, result: Ok(()) })
        }
    }
}

/// A command run across the repositories of a workspace, one at a time, in
/// order.
pub struct ApplyRun {
    workspace_dir: String,
    repos: Vec<Vec<String>>,
    current: usize,
    finished: bool,
}

impl ApplyRun {
    pub closed spec fn plan(&self) -> ApplyPlan {
        ApplyPlan { workspace_dir: self.workspace_dir@, repos: paths(self.repos@) }
    }

    /// The repository the command runs in.
    pub closed spec fn current(&self) -> int {
        self.current as int
    }

    pub closed spec fn finished(&self) -> bool {
        self.finished
    }

    /// An unfinished run is at one of its repositories.
    pub closed spec fn wf(&self) -> bool {
        !self.finished ==> self.current < self.repos@.len()
    }

    /// Starts a run over `repos` (relative to `workspace_dir`); returns it
    /// with its first action.
    pub fn new(workspace_dir: &str, repos: Vec<Vec<String>>) -> (r: (ApplyRun, ApplyStep))
        ensures
            r.0.plan() == (ApplyPlan { workspace_dir: workspace_dir@, repos: paths(repos@) }),
            r.0.wf(),
            r.0.current() == 0,
            r.0.finished() == (repos@.len() == 0),
            r.1@ == apply_start(r.0.plan()),
    {
        let run = ApplyRun { workspace_dir: owned(workspace_dir), finished: repos.len() == 0, repos, current: 0 };
        let mut lines: Vec<String> = Vec::new();
        if run.repos.len() == 0 {
            lines.push(owned("No repositories found in workspace"));
            assert(texts(lines@) =~= seq![no_repositories_notice()]);
            (run, ApplyStep { complaint: None, lines, run_in: None, result: Ok(()) })
        } else {
            lines.push(run.header(0));
            assert(texts(lines@) =~= seq![header(run.plan().repos[0])]);
            let dir = run.dir(0);
            (run, ApplyStep { complaint: None, lines, run_in: Some(dir), result: Ok(()) })
        }
    }

    /// Whether the run is over.
    pub fn is_finished(&self) -> (r: bool)
        ensures
            r == self.finished(),
    {
        self.finished
    }

    fn header(&self, i: usize) -> (r: String)
        requires
            i < self.repos@.len(),
        ensures
            r@ == header(self.plan().repos[i as int]),
    {
        let mut h = owned("==> ");
        h.append(join_parts(&self.repos[i], "/").as_str());
        h.append(" <==");
        h
    }

    fn dir(&self, i: usize) -> (r: String)
        requires
            i < self.repos@.len(),
        ensures
            r@ == apply_dir(self.plan().workspace_dir, self.plan().repos[i as int]),
    {
        path_join(self.workspace_dir.as_str(), join_parts(&self.repos[i], "/").as_str())
    }

    /// Advances the run by the outcome of the command in the current
    /// repository.
    pub fn step(&mut self, reply: &Reply) -> (r: ApplyStep)
        requires
            old(self).wf(),
            !old(self).finished(),
        ensures
            final(self).wf(),
            final(self).plan() == old(self).plan(),
            (final(self).finished(), r@) == apply_next(old(self).plan(), old(self).current(), reply@),
            !final(self).finished() ==> final(self).current() == old(self).current() + 1,
    {
        let i = self.current;
        let repo = join_parts(&self.repos[i], "/");
        if let Reply::IoFailed(m) = reply {
            self.finished = true;
            let r = ApplyStep {
                complaint: None,
                lines: Vec::new(),
                run_in: None,
                result: Err(NutError::CommandFailed { repo, message: m.clone() }),
            };
            assert(texts(r.lines@) =~= Seq::<Seq<char>>::empty());
            return r;
        }
        let complaint = if reply.succeeded() {
            None
        } else {
            Some(NutError::CommandFailed { repo, message: failure_text(reply) })
        };
        let mut lines: Vec<String> = Vec::new();
        lines.push(String::new());
        if i < self.repos.len() - 1 {
            lines.push(self.header(i + 1));
            assert(texts(lines@) =~= seq![Seq::empty(), header(self.plan().repos[i + 1])]);
            self.current = i + 1;
            let dir = self.dir(i + 1);
            ApplyStep { complaint, lines, run_in: Some(dir), result: Ok(()) }
        } else {
            assert(texts(lines@) =~= seq![Seq::<char>::empty()]);
            self.finished = true;
            ApplyStep { complaint, lines, run_in: None, result: Ok(()) }
        }
    }
}

/// Why a process that ran did not succeed.
fn failure_text(reply: &Reply) -> (r: String)
    ensures
        r@ == failure_message(reply@),
{
    match reply {
        Reply::Ran(o) => match (o.code, o.signal) {
            (Some(c), _) => {
                let mut s = owned("Command exited with status code ");
                push_signed_decimal(&mut s, c as i64);
                s
            },
            (None, Some(sig)) => {
                let mut s = owned("Command terminated by signal ");
                push_signed_decimal(&mut s, sig as i64);
                s
            },
            _ => owned("Command terminated for unknown reason"),
        },
        _ => owned("Command terminated for unknown reason"),
    }
}

} // verus!

verus! {

/// An apply over a workspace without repositories prints that none were
/// found and succeeds without running anything.
pub proof fn lemma_empty_workspace_apply(ws: Seq<char>)
    ensures
        apply_start(ApplyPlan { workspace_dir: ws, repos: Seq::empty() }) == (ApplyStepView {
            complaint: None,
            lines: seq![no_repositories_notice()],
            run_in: None,
            result: Ok(()),
        }),
{
}

/// A command that fails in one repository is reported for that repository,
/// and the run still goes on to the next one; a failed command never makes
/// the run itself fail.
pub proof fn lemma_failure_is_isolated(p: ApplyPlan, i: int, r: ReplyView)
    requires
        0 <= i < p.repos.len(),
        r is Ran,
        !succeeded(r),
    ensures
        apply_next(p, i, r).1.complaint == Some(
            ErrorView::CommandFailed { repo: joined(p.repos[i], "/"@), message: failure_message(r) },
        ),
        apply_next(p, i, r).1.result == Ok::<(), ErrorView>(()),
        i + 1 < p.repos.len() ==> !apply_next(p, i, r).0
            && apply_next(p, i, r).1.run_in == Some(apply_dir(p.workspace_dir, p.repos[i + 1])),
{
}

/// The program and arguments to run: in script mode the script (by its
/// absolute path) followed by the arguments; otherwise the command, which must
/// not be empty.
pub fn command_line(script: Option<String>, command: Vec<String>) -> (r: Result<Vec<String>, NutError>)
    ensures
        script matches Some(s) ==> (r matches Ok(v) && texts(v@) == seq![s@] + texts(command@)),
        script is None && command@.len() > 0 ==> (r matches Ok(v) && texts(v@) == texts(command@)),
        script is None && command@.len() == 0 ==> (r matches Err(e) && e@ == ErrorView::ApplyMissingCommand),
{
    match script {
        Some(s) => {
            let mut v: Vec<String> = Vec::new();
            let ghost sv = s@;
            v.push(s);
            let mut command = command;
            let ghost rest = command@;
            v.append(&mut command);
            assert(texts(v@) =~= seq![sv] + texts(rest));
            Ok(v)
        },
        None => {
            if command.len() == 0 {
                Err(NutError::ApplyMissingCommand)
            } else {
                Ok(command)
            }
        },
    }
}

/// Refuses a script whose permission bits carry no execute bit.
pub fn check_script_mode(path: &str, mode: u32) -> (r: Result<(), NutError>)
    ensures
        r is Ok <==> mode & 0o111 != 0,
        r matches Err(e) ==> e@ == (ErrorView::ScriptNotExecutable { path: path@ }),
{
    if mode & 0o111 == 0 {
        Err(NutError::ScriptNotExecutable { path: owned(path) })
    } else {
        Ok(())
    }
}

} // verus!
