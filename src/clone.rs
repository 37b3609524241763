//! The cache-tiered clone pipeline as a state machine.

use crate::command::{succeeded,
    output_outcome, run_outcome, says_exists, unit_view, GitCall, GitCommand, Reply, ReplyView,
};
use crate::error::{ErrorView, NutError};
use crate::gh::{clone_url, GitProtocol};
use crate::text::{join_path, owned, path_join, strip_back};
use vstd::prelude::*;
use vstd::string::*;

verus! {

/// What the repository-listing service knows of a repository. The commit and
/// branch are absent for an empty upstream repository.
#[derive(Debug, Clone)]
pub struct CloneInfo {
    pub full_name: String,
    pub latest_commit: Option<String>,
    pub default_branch: Option<String>,
}

/// The host every clone is made from.
pub open spec fn clone_host() -> Seq<char> {
    "github.com"@
}

/// The fixed inputs of one clone request.
pub struct ClonePlan {
    pub workspace_dir: Seq<char>,
    /// The mirror cache of the host: `<cache root>/<host>`.
    pub cache_dir: Seq<char>,
    pub full_name: Seq<char>,
    pub clone_url: Seq<char>,
    /// Whether the default branch and its latest commit are known.
    pub has_metadata: bool,
    pub default_branch: Seq<char>,
    pub latest_commit: Seq<char>,
}

/// Where the pipeline stands: which reply it waits for.
#[derive(Debug, Clone, Copy, PartialEq, Eq, Structural)]
pub enum CloneStage {
    CheckCheckout,
    CheckoutRevision,
    CurrentBranch,
    Fetching,
    Pulling,
    CheckCache,
    CacheRevision,
    Refreshing,
    CreatingCacheDir,
    Mirroring,
    FinalCheck,
    LocalCloning,
    SettingOrigin,
    Finished,
}

/// What the pipeline asks its driver to do next.
#[derive(Debug)]
pub enum CloneAction {
    /// Report whether this path exists.
    CheckExists(String),
    /// Run git, capturing its standard output.
    Output(GitCommand),
    /// Run git with its output shown to the user.
    Run(GitCommand),
    /// Create this directory and its parents.
    CreateDirAll(String),
    /// The request is complete.
    Finish(Result<(), NutError>),
}

/// A `CloneAction` seen through views.
pub enum CloneStep {
    CheckExists(Seq<char>),
    Output(GitCall),
    Run(GitCall),
    CreateDirAll(Seq<char>),
    Finish(Result<(), ErrorView>),
}

impl View for CloneAction {
    type V = CloneStep;

    open spec fn view(&self) -> CloneStep {
        match self {
            CloneAction::CheckExists(p) => CloneStep::CheckExists(p@),
            CloneAction::Output(c) => CloneStep::Output(c@),
            CloneAction::Run(c) => CloneStep::Run(c@),
            CloneAction::CreateDirAll(p) => CloneStep::CreateDirAll(p@),
            CloneAction::Finish(r) => CloneStep::Finish(unit_view(*r)),
        }
    }
}

/// The workspace checkout: `<workspace>/<full name>`.
pub open spec fn checkout_dir(p: ClonePlan) -> Seq<char> {
    join_path(p.workspace_dir, p.full_name)
}

/// The mirror of the repository: `<cache>/<full name>`.
pub open spec fn cache_repo_dir(p: ClonePlan) -> Seq<char> {
    join_path(p.cache_dir, p.full_name)
}

pub open spec fn branch_of(p: ClonePlan) -> Seq<char> {
    p.default_branch
}

pub open spec fn latest_of(p: ClonePlan) -> Seq<char> {
    p.latest_commit
}

pub open spec fn rev_parse_args(branch: Seq<char>) -> Seq<Seq<char>> {
    seq!["rev-parse"@, "origin/"@ + branch]
}

pub open spec fn current_branch_args() -> Seq<Seq<char>> {
    seq!["branch"@, "--show-current"@]
}

pub open spec fn fetch_args() -> Seq<Seq<char>> {
    seq!["fetch"@, "origin"@]
}

pub open spec fn pull_args() -> Seq<Seq<char>> {
    seq!["pull"@]
}

pub open spec fn prune_args() -> Seq<Seq<char>> {
    seq!["remote"@, "update"@, "--prune"@]
}

pub open spec fn mirror_args(url: Seq<char>, full_name: Seq<char>) -> Seq<Seq<char>> {
    seq!["clone"@, url, full_name, "--mirror"@, "--bare"@]
}

pub open spec fn local_clone_args(cache_path: Seq<char>, full_name: Seq<char>) -> Seq<Seq<char>> {
    seq!["clone"@, "--local"@, cache_path, full_name]
}

pub open spec fn set_origin_args(url: Seq<char>) -> Seq<Seq<char>> {
    seq!["remote"@, "set-url"@, "origin"@, url]
}

pub open spec fn call(dir: Seq<char>, args: Seq<Seq<char>>) -> GitCall {
    GitCall { dir, args }
}

/// Ends the request with `r`.
pub open spec fn finish(r: Result<(), ErrorView>) -> (CloneStage, CloneStep) {
    (CloneStage::Finished, CloneStep::Finish(r))
}

/// After the mirror is settled: look again for the workspace checkout.
pub open spec fn final_check(p: ClonePlan) -> (CloneStage, CloneStep) {
    (CloneStage::FinalCheck, CloneStep::CheckExists(checkout_dir(p)))
}

/// The pipeline's transition: from stage `s` and the driver's reply `r` to the
/// next stage and action.
pub open spec fn clone_next(p: ClonePlan, s: CloneStage, r: ReplyView) -> (CloneStage, CloneStep) {
    match s {
        CloneStage::CheckCheckout => if says_exists(r) {
            (CloneStage::CheckoutRevision, CloneStep::Output(call(checkout_dir(p), rev_parse_args(branch_of(p)))))
        } else {
            (CloneStage::CheckCache, CloneStep::CheckExists(cache_repo_dir(p)))
        },
        CloneStage::CheckoutRevision => match output_outcome(rev_parse_args(branch_of(p)), r) {
            Ok(t) => if t == latest_of(p) {
                finish(Ok(()))
            } else {
                (CloneStage::CurrentBranch, CloneStep::Output(call(checkout_dir(p), current_branch_args())))
            },
            Err(e) => finish(Err(e)),
        },
        CloneStage::CurrentBranch => match output_outcome(current_branch_args(), r) {
            Ok(t) => if t != branch_of(p) {
                (CloneStage::Fetching, CloneStep::Run(call(checkout_dir(p), fetch_args())))
            } else {
                (CloneStage::Pulling, CloneStep::Run(call(checkout_dir(p), pull_args())))
            },
            Err(e) => finish(Err(e)),
        },
        CloneStage::Fetching => finish(run_outcome(fetch_args(), r)),
        CloneStage::Pulling => finish(run_outcome(pull_args(), r)),
        CloneStage::CheckCache => if says_exists(r) {
            (CloneStage::CacheRevision, CloneStep::Output(call(cache_repo_dir(p), rev_parse_args(branch_of(p)))))
        } else {
            (CloneStage::CreatingCacheDir, CloneStep::CreateDirAll(p.cache_dir))
        },
        CloneStage::CacheRevision => match output_outcome(rev_parse_args(branch_of(p)), r) {
            Ok(t) => if t == latest_of(p) {
                final_check(p)
            } else {
                (CloneStage::Refreshing, CloneStep::Run(call(cache_repo_dir(p), prune_args())))
            },
            Err(e) => finish(Err(e)),
        },
        CloneStage::Refreshing => match run_outcome(prune_args(), r) {
            Ok(()) => final_check(p),
            Err(e) => finish(Err(e)),
        },
        CloneStage::CreatingCacheDir => match r {
            ReplyView::IoFailed(m) => finish(Err(ErrorView::CreateDirectoryFailed { path: p.cache_dir, message: m })),
            _ => (CloneStage::Mirroring, CloneStep::Run(call(p.cache_dir, mirror_args(p.clone_url, p.full_name)))),
        },
        CloneStage::Mirroring => match run_outcome(mirror_args(p.clone_url, p.full_name), r) {
            Ok(()) => final_check(p),
            Err(e) => finish(Err(e)),
        },
        CloneStage::FinalCheck => if says_exists(r) {
            finish(Ok(()))
        } else {
            (CloneStage::LocalCloning, CloneStep::Run(call(p.workspace_dir, local_clone_args(cache_repo_dir(p), p.full_name))))
        },
        CloneStage::LocalCloning => match run_outcome(local_clone_args(cache_repo_dir(p), p.full_name), r) {
            Ok(()) => (CloneStage::SettingOrigin, CloneStep::Run(call(checkout_dir(p), set_origin_args(p.clone_url)))),
            Err(e) => finish(Err(e)),
        },
        CloneStage::SettingOrigin => finish(run_outcome(set_origin_args(p.clone_url), r)),
        CloneStage::Finished => finish(Ok(())),
    }
}

/// The first stage and action of a request with plan `p`.
pub open spec fn clone_start(p: ClonePlan) -> (CloneStage, CloneStep) {
    if p.has_metadata {
        (CloneStage::CheckCheckout, CloneStep::CheckExists(checkout_dir(p)))
    } else {
        (CloneStage::FinalCheck, CloneStep::CheckExists(checkout_dir(p)))
    }
}

/// One clone request moving through the cache-tiered pipeline.
pub struct ClonePipeline {
    workspace_dir: String,
    cache_dir: String,
    full_name: String,
    clone_url: String,
    has_metadata: bool,
    default_branch: String,
    latest_commit: String,
    stage: CloneStage,
}

impl ClonePipeline {
    /// The fixed inputs of this request.
    pub closed spec fn plan(&self) -> ClonePlan {
        ClonePlan {
            workspace_dir: self.workspace_dir@,
            cache_dir: self.cache_dir@,
            full_name: self.full_name@,
            clone_url: self.clone_url@,
            has_metadata: self.has_metadata,
            default_branch: self.default_branch@,
            latest_commit: self.latest_commit@,
        }
    }

    /// The stage the request is in.
    pub closed spec fn stage(&self) -> CloneStage {
        self.stage
    }

    /// Starts a request to bring `info`'s repository into `workspace_dir`,
    /// with mirrors kept under `<cache_root>/<host>` and remote URLs in
    /// `protocol`.
    /// Returns the pipeline and its first action.
    pub fn new(workspace_dir: &str, cache_root: &str, info: &CloneInfo, protocol: GitProtocol) -> (r: (ClonePipeline, CloneAction))
        ensures
            r.0.plan().workspace_dir == workspace_dir@,
            r.0.plan().cache_dir == join_path(cache_root@, clone_host()),
            r.0.plan().full_name == info.full_name@,
            r.0.plan().clone_url == clone_url(protocol, clone_host(), info.full_name@),
            r.0.plan().has_metadata == (info.default_branch is Some && info.latest_commit is Some),
            r.0.plan().has_metadata ==> r.0.plan().default_branch == info.default_branch->0@
                && r.0.plan().latest_commit == info.latest_commit->0@,
            (r.0.stage(), r.1@) == clone_start(r.0.plan()),
    {
        let url = protocol.to_clone_url("github.com", info.full_name.as_str());
        let (has_metadata, default_branch, latest_commit) = match (&info.default_branch, &info.latest_commit) {
            (Some(b), Some(c)) => (true, b.clone(), c.clone()),
            _ => (false, String::new(), String::new()),
        };
        let p = ClonePipeline {
            workspace_dir: owned(workspace_dir),
            cache_dir: path_join(cache_root, "github.com"),
            full_name: info.full_name.clone(),
            clone_url: url,
            has_metadata,
            default_branch,
            latest_commit,
            stage: if has_metadata {
                CloneStage::CheckCheckout
            } else {
                CloneStage::FinalCheck
            },
        };
        let action = CloneAction::CheckExists(p.checkout_dir());
        (p, action)
    }

    fn checkout_dir(&self) -> (r: String)
        ensures
            r@ == checkout_dir(self.plan()),
    {
        path_join(self.workspace_dir.as_str(), self.full_name.as_str())
    }

    fn cache_repo_dir(&self) -> (r: String)
        ensures
            r@ == cache_repo_dir(self.plan()),
    {
        path_join(self.cache_dir.as_str(), self.full_name.as_str())
    }

    fn rev_parse(&self, dir: String) -> (r: GitCommand)
        ensures
            r@ == call(dir@, rev_parse_args(branch_of(self.plan()))),
    {
        let mut origin_branch = owned("origin/");
        origin_branch.append(self.default_branch.as_str());
        let r = GitCommand::new(dir.as_str()).arg("rev-parse").arg(origin_branch.as_str());
        assert(r@.args =~= rev_parse_args(branch_of(self.plan())));
        r
    }

    /// Whether the request is complete.
    pub fn is_finished(&self) -> (r: bool)
        ensures
            r == (self.stage() == CloneStage::Finished),
    {
        self.stage == CloneStage::Finished
    }

    /// Advances the request by the driver's reply to the last action.
    pub fn step(&mut self, reply: &Reply) -> (r: CloneAction)
        requires
            old(self).stage() != CloneStage::Finished,
        ensures
            final(self).plan() == old(self).plan(),
            (final(self).stage(), r@) == clone_next(old(self).plan(), old(self).stage(), reply@),
    {
        let ghost p = self.plan();
        match self.stage {
            CloneStage::CheckCheckout => {
                if reply.says_exists() {
                    self.stage = CloneStage::CheckoutRevision;
                    CloneAction::Output(self.rev_parse(self.checkout_dir()))
                } else {
                    self.stage = CloneStage::CheckCache;
                    CloneAction::CheckExists(self.cache_repo_dir())
                }
            },
            CloneStage::CheckoutRevision => {
                let cmd = self.rev_parse(self.checkout_dir());
                match cmd.output_string(reply) {
                    Ok(t) => {
                        if t == self.latest_commit {
                            self.stage = CloneStage::Finished;
                            CloneAction::Finish(Ok(()))
                        } else {
                            self.stage = CloneStage::CurrentBranch;
                            let c = GitCommand::new(self.checkout_dir().as_str()).arg("branch").arg("--show-current");
                            assert(c@.args =~= current_branch_args());
                            CloneAction::Output(c)
                        }
                    },
                    Err(e) => {
                        self.stage = CloneStage::Finished;
                        CloneAction::Finish(Err(e))
                    },
                }
            },
            CloneStage::CurrentBranch => {
                let cmd = GitCommand::new(self.checkout_dir().as_str()).arg("branch").arg("--show-current");
                assert(cmd@.args =~= current_branch_args());
                match cmd.output_string(reply) {
                    Ok(t) => {
                        if t != self.default_branch {
                            self.stage = CloneStage::Fetching;
                            let c = GitCommand::new(self.checkout_dir().as_str()).arg("fetch").arg("origin");
                            assert(c@.args =~= fetch_args());
                            CloneAction::Run(c)
                        } else {
                            self.stage = CloneStage::Pulling;
                            let c = GitCommand::new(self.checkout_dir().as_str()).arg("pull");
                            assert(c@.args =~= pull_args());
                            CloneAction::Run(c)
                        }
                    },
                    Err(e) => {
                        self.stage = CloneStage::Finished;
                        CloneAction::Finish(Err(e))
                    },
                }
            },
            CloneStage::Fetching => {
                let c = GitCommand::new(self.checkout_dir().as_str()).arg("fetch").arg("origin");
                assert(c@.args =~= fetch_args());
                self.stage = CloneStage::Finished;
                CloneAction::Finish(c.run_result(reply))
            },
            CloneStage::Pulling => {
                let c = GitCommand::new(self.checkout_dir().as_str()).arg("pull");
                assert(c@.args =~= pull_args());
                self.stage = CloneStage::Finished;
                CloneAction::Finish(c.run_result(reply))
            },
            CloneStage::CheckCache => {
                if reply.says_exists() {
                    self.stage = CloneStage::CacheRevision;
                    CloneAction::Output(self.rev_parse(self.cache_repo_dir()))
                } else {
                    self.stage = CloneStage::CreatingCacheDir;
                    CloneAction::CreateDirAll(self.cache_dir.clone())
                }
            },
            CloneStage::CacheRevision => {
                let cmd = self.rev_parse(self.cache_repo_dir());
                match cmd.output_string(reply) {
                    Ok(t) => {
                        if t == self.latest_commit {
                            self.stage = CloneStage::FinalCheck;
                            CloneAction::CheckExists(self.checkout_dir())
                        } else {
                            self.stage = CloneStage::Refreshing;
                            let c = GitCommand::new(self.cache_repo_dir().as_str()).arg("remote").arg("update").arg("--prune");
                            assert(c@.args =~= prune_args());
                            CloneAction::Run(c)
                        }
                    },
                    Err(e) => {
                        self.stage = CloneStage::Finished;
                        CloneAction::Finish(Err(e))
                    },
                }
            },
            CloneStage::Refreshing => {
                let c = GitCommand::new(self.cache_repo_dir().as_str()).arg("remote").arg("update").arg("--prune");
                assert(c@.args =~= prune_args());
                match c.run_result(reply) {
                    Ok(()) => {
                        self.stage = CloneStage::FinalCheck;
                        CloneAction::CheckExists(self.checkout_dir())
                    },
                    Err(e) => {
                        self.stage = CloneStage::Finished;
                        CloneAction::Finish(Err(e))
                    },
                }
            },
            CloneStage::CreatingCacheDir => {
                match reply {
                    Reply::IoFailed(m) => {
                        self.stage = CloneStage::Finished;
                        CloneAction::Finish(Err(NutError::CreateDirectoryFailed { path: self.cache_dir.clone(), message: m.clone() }))
                    },
                    _ => {
                        self.stage = CloneStage::Mirroring;
                        CloneAction::Run(self.mirror())
                    },
                }
            },
            CloneStage::Mirroring => {
                let c = self.mirror();
                match c.run_result(reply) {
                    Ok(()) => {
                        self.stage = CloneStage::FinalCheck;
                        CloneAction::CheckExists(self.checkout_dir())
                    },
                    Err(e) => {
                        self.stage = CloneStage::Finished;
                        CloneAction::Finish(Err(e))
                    },
                }
            },
            CloneStage::FinalCheck => {
                if reply.says_exists() {
                    self.stage = CloneStage::Finished;
                    CloneAction::Finish(Ok(()))
                } else {
                    self.stage = CloneStage::LocalCloning;
                    CloneAction::Run(self.local_clone())
                }
            },
            CloneStage::LocalCloning => {
                let c = self.local_clone();
                match c.run_result(reply) {
                    Ok(()) => {
                        self.stage = CloneStage::SettingOrigin;
                        CloneAction::Run(self.set_origin())
                    },
                    Err(e) => {
                        self.stage = CloneStage::Finished;
                        CloneAction::Finish(Err(e))
                    },
                }
            },
            CloneStage::SettingOrigin => {
                let c = self.set_origin();
                self.stage = CloneStage::Finished;
                CloneAction::Finish(c.run_result(reply))
            },
            CloneStage::Finished => {
                CloneAction::Finish(Ok(()))
            },
        }
    }

    fn mirror(&self) -> (r: GitCommand)
        ensures
            r@ == call(self.plan().cache_dir, mirror_args(self.plan().clone_url, self.plan().full_name)),
    {
        let c = GitCommand::new(self.cache_dir.as_str()).arg("clone").arg(self.clone_url.as_str()).arg(
            self.full_name.as_str(),
        ).arg("--mirror").arg("--bare");
        assert(c@.args =~= mirror_args(self.plan().clone_url, self.plan().full_name));
        c
    }

    fn local_clone(&self) -> (r: GitCommand)
        ensures
            r@ == call(self.plan().workspace_dir, local_clone_args(cache_repo_dir(self.plan()), self.plan().full_name)),
    {
        let cache_path = self.cache_repo_dir();
        let c = GitCommand::new(self.workspace_dir.as_str()).arg("clone").arg("--local").arg(cache_path.as_str()).arg(
            self.full_name.as_str(),
        );
        assert(c@.args =~= local_clone_args(cache_repo_dir(self.plan()), self.plan().full_name));
        c
    }

    fn set_origin(&self) -> (r: GitCommand)
        ensures
            r@ == call(checkout_dir(self.plan()), set_origin_args(self.plan().clone_url)),
    {
        let c = GitCommand::new(self.checkout_dir().as_str()).arg("remote").arg("set-url").arg("origin").arg(
            self.clone_url.as_str(),
        );
        assert(c@.args =~= set_origin_args(self.plan().clone_url));
        c
    }
}

} // verus!

verus! {

/// A request whose workspace checkout exists and whose `origin/<default
/// branch>` already reads the known latest commit is finished by two local
/// queries: it looks for the checkout, reads that ref, and stops with success.
/// It fetches, pulls, refreshes, mirrors and clones nothing. This is what a
/// second run with the same `CloneInfo` meets once the first has brought the
/// checkout up to that commit: it makes no network operation.
pub proof fn lemma_up_to_date_checkout_is_left_alone(p: ClonePlan, reply: ReplyView)
    requires
        p.has_metadata,
        reply matches ReplyView::Ran { stdout, .. } && strip_back(stdout) == p.latest_commit,
    ensures
        clone_start(p) == (CloneStage::CheckCheckout, CloneStep::CheckExists(checkout_dir(p))),
        clone_next(p, CloneStage::CheckCheckout, ReplyView::Exists(true)) == (
            CloneStage::CheckoutRevision,
            CloneStep::Output(call(checkout_dir(p), rev_parse_args(p.default_branch))),
        ),
        clone_next(p, CloneStage::CheckoutRevision, reply) == finish(Ok(())),
{
}

/// A checkout made by a local clone from the mirror is always pointed back at
/// the real remote: once the local clone succeeds, the next action sets
/// `origin` in the checkout to the plan's clone URL, never to the cache path;
/// and the request ends in success only if that succeeds.
pub proof fn lemma_local_clone_sets_real_origin(p: ClonePlan, r: ReplyView)
    ensures
        succeeded(r) ==> clone_next(p, CloneStage::LocalCloning, r) == (
            CloneStage::SettingOrigin,
            CloneStep::Run(call(checkout_dir(p), set_origin_args(p.clone_url))),
        ),
        !succeeded(r) ==> (clone_next(p, CloneStage::LocalCloning, r).1 matches CloneStep::Finish(Err(_))),
        set_origin_args(p.clone_url).last() == p.clone_url,
        (clone_next(p, CloneStage::SettingOrigin, r).1 == CloneStep::Finish(Ok(()))) <==> succeeded(r),
{
    assert(set_origin_args(p.clone_url).last() == p.clone_url);
}

} // verus!
