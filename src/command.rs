//! git invocations as values, and the driver's replies to actions.

use crate::error::{ErrorView, NutError};
use crate::text::{owned, strip_back, trim_end};
use vstd::prelude::*;
use vstd::string::*;

verus! {

/// A git invocation as a value: the working directory and the arguments.
pub struct GitCall {
    pub dir: Seq<char>,
    pub args: Seq<Seq<char>>,
}

/// A git invocation to be run by the driver: `git <args>` in `working_dir`.
#[derive(Debug, Clone)]
pub struct GitCommand {
    pub args: Vec<String>,
    pub working_dir: String,
}

/// The character sequences of a list of strings.
pub open spec fn texts(v: Seq<String>) -> Seq<Seq<char>> {
    v.map_values(|s: String| s@)
}

impl View for GitCommand {
    type V = GitCall;

    open spec fn view(&self) -> GitCall {
        GitCall { dir: self.working_dir@, args: texts(self.args@) }
    }
}

/// The parts separated by single spaces.
pub open spec fn spaced(parts: Seq<Seq<char>>) -> Seq<char>
    decreases parts.len(),
{
    if parts.len() == 0 {
        Seq::empty()
    } else if parts.len() == 1 {
        parts[0]
    } else {
        spaced(parts.drop_last()) + " "@ + parts.last()
    }
}

/// How an invocation is named in messages: `git <args>`.
pub open spec fn describe(args: Seq<Seq<char>>) -> Seq<char> {
    "git "@ + spaced(args)
}

/// What the driver observed when carrying out a process.
#[derive(Debug, Clone)]
pub struct ProcessOutput {
    /// The exit code, if the process exited normally.
    pub code: Option<i32>,
    /// The terminating signal, if a signal ended it.
    pub signal: Option<i32>,
    /// Captured standard output (empty when not captured).
    pub stdout: String,
}

/// The driver's answer to one action.
#[derive(Debug, Clone)]
pub enum Reply {
    /// Whether the path asked about exists.
    Exists(bool),
    /// The process ran to completion.
    Ran(ProcessOutput),
    /// A directory was created.
    Done,
    /// The process could not be started, or the filesystem operation failed.
    IoFailed(String),
}

/// A `Reply` with its text seen as character sequences.
pub enum ReplyView {
    Exists(bool),
    Ran { code: Option<i32>, signal: Option<i32>, stdout: Seq<char> },
    Done,
    IoFailed(Seq<char>),
}

impl View for Reply {
    type V = ReplyView;

    open spec fn view(&self) -> ReplyView {
        match self {
            Reply::Exists(b) => ReplyView::Exists(*b),
            Reply::Ran(o) => ReplyView::Ran { code: o.code, signal: o.signal, stdout: o.stdout@ },
            Reply::Done => ReplyView::Done,
            Reply::IoFailed(m) => ReplyView::IoFailed(m@),
        }
    }
}

/// The reply says the path exists.
pub open spec fn says_exists(r: ReplyView) -> bool {
    r matches ReplyView::Exists(true)
}

/// The reply is a process that exited with status zero.
pub open spec fn succeeded(r: ReplyView) -> bool {
    r matches ReplyView::Ran { code: Some(c), .. } && c == 0
}

/// What running `args` amounts to: success on a zero exit; otherwise the
/// cause, naming the invocation: git could not be started, was ended by a
/// signal, or exited unsuccessfully.
pub open spec fn run_outcome(args: Seq<Seq<char>>, r: ReplyView) -> Result<(), ErrorView> {
    if succeeded(r) {
        Ok(())
    } else {
        match r {
            ReplyView::IoFailed(m) => Err(ErrorView::GitCommandFailed { command: describe(args), message: m }),
            ReplyView::Ran { code: None, signal: Some(s), .. } => Err(
                ErrorView::GitTerminatedBySignal { operation: describe(args), signal: s },
            ),
            _ => Err(ErrorView::GitOperationFailed { operation: describe(args) }),
        }
    }
}

/// What capturing the output of `args` amounts to: its standard output
/// without trailing whitespace, whatever the exit status, or the failure to
/// run it.
pub open spec fn output_outcome(args: Seq<Seq<char>>, r: ReplyView) -> Result<Seq<char>, ErrorView> {
    match r {
        ReplyView::Ran { stdout, .. } => Ok(strip_back(stdout)),
        ReplyView::IoFailed(m) => Err(ErrorView::GitCommandFailed { command: describe(args), message: m }),
        _ => Err(ErrorView::GitOperationFailed { operation: describe(args) }),
    }
}

/// A `Result<(), NutError>` seen through the error's view.
pub open spec fn unit_view(r: Result<(), NutError>) -> Result<(), ErrorView> {
    match r {
        Ok(()) => Ok(()),
        Err(e) => Err(e@),
    }
}

/// A `Result<String, NutError>` seen through views.
pub open spec fn text_view(r: Result<String, NutError>) -> Result<Seq<char>, ErrorView> {
    match r {
        Ok(s) => Ok(s@),
        Err(e) => Err(e@),
    }
}

impl ProcessOutput {
    /// Whether the process exited with status zero (a signal is no success).
    pub fn success(&self) -> (r: bool)
        ensures
            r == (self.code == Some(0i32)),
    {
        match self.code {
            Some(c) => c == 0,
            None => false,
        }
    }
}

impl Reply {
    /// Whether the reply says the path exists.
    pub fn says_exists(&self) -> (r: bool)
        ensures
            r == says_exists(self@),
    {
        match self {
            Reply::Exists(b) => *b,
            _ => false,
        }
    }

    /// Whether the reply is a process that exited with status zero.
    pub fn succeeded(&self) -> (r: bool)
        ensures
            r == succeeded(self@),
    {
        match self {
            Reply::Ran(o) => o.success(),
            _ => false,
        }
    }
}

impl GitCommand {
    /// An invocation with no arguments yet, to run in `working_dir`.
    pub fn new(working_dir: &str) -> (r: GitCommand)
        ensures
            r@ == (GitCall { dir: working_dir@, args: Seq::empty() }),
    {
        let r = GitCommand { args: Vec::new(), working_dir: owned(working_dir) };
        assert(texts(r.args@) =~= Seq::empty());
        r
    }

    /// The invocation with one more argument.
    pub fn arg(self, arg: &str) -> (r: GitCommand)
        ensures
            r@ == (GitCall { dir: self@.dir, args: self@.args.push(arg@) }),
    {
        let mut r = self;
        r.args.push(owned(arg));
        assert(texts(r.args@) =~= self@.args.push(arg@));
        r
    }

    /// The invocation with the given arguments appended.
    pub fn args(self, args: &[&str]) -> (r: GitCommand)
        ensures
            r@ == (GitCall { dir: self@.dir, args: self@.args + args@.map_values(|a: &str| a@) }),
    {
        let mut r = self;
        let mut i: usize = 0;
        while i < args.len()
            invariant
                i <= args@.len(),
                r@ == (GitCall { dir: self@.dir, args: self@.args + args@.take(i as int).map_values(|a: &str| a@) }),
            decreases args@.len() - i,
        {
            r = r.arg(args[i]);
            assert(args@.take(i as int + 1).map_values(|a: &str| a@) =~= args@.take(i as int).map_values(|a: &str| a@).push(args@[i as int]@));
            assert(self@.args + args@.take(i as int + 1).map_values(|a: &str| a@) =~= (self@.args + args@.take(i as int).map_values(|a: &str| a@)).push(args@[i as int]@));
            i = i + 1;
        }
        assert(args@.take(args@.len() as int) =~= args@);
        r
    }

    /// The invocation as named in messages: `git <args>`.
    pub fn describe(&self) -> (r: String)
        ensures
            r@ == describe(self@.args),
    {
        let mut s = owned("git ");
        let n = self.args.len();
        let mut i: usize = 0;
        while i < n
            invariant
                n == self.args@.len(),
                i <= n,
                s@ == "git "@ + spaced(texts(self.args@).take(i as int)),
            decreases n - i,
        {
            let ghost before = texts(self.args@).take(i as int);
            let ghost after = texts(self.args@).take(i as int + 1);
            assert(after.drop_last() =~= before);
            if i > 0 {
                s.append(" ");
            }
            s.append(self.args[i].as_str());
            assert(s@ =~= "git "@ + spaced(after));
            i = i + 1;
        }
        assert(texts(self.args@).take(n as int) =~= texts(self.args@));
        s
    }

    /// The outcome of running this invocation, given the driver's reply.
    pub fn run_result(&self, reply: &Reply) -> (r: Result<(), NutError>)
        ensures
            unit_view(r) == run_outcome(self@.args, reply@),
    {
        if reply.succeeded() {
            Ok(())
        } else {
            match reply {
                Reply::IoFailed(m) => Err(NutError::GitCommandFailed { command: self.describe(), message: m.clone() }),
                Reply::Ran(ProcessOutput { code: None, signal: Some(s), .. }) => Err(
                    NutError::GitTerminatedBySignal { operation: self.describe(), signal: *s },
                ),
                _ => Err(NutError::GitOperationFailed { operation: self.describe() }),
            }
        }
    }

    /// The standard output of this invocation without trailing whitespace,
    /// given the driver's reply.
    pub fn output_string(&self, reply: &Reply) -> (r: Result<String, NutError>)
        ensures
            text_view(r) == output_outcome(self@.args, reply@),
    {
        match reply {
            Reply::Ran(o) => Ok(trim_end(o.stdout.as_str())),
            Reply::IoFailed(m) => Err(NutError::GitCommandFailed { command: self.describe(), message: m.clone() }),
            _ => Err(NutError::GitOperationFailed { operation: self.describe() }),
        }
    }
}

} // verus!
