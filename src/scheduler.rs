//! Bounded admission of clone pipelines.

use crate::error::{ErrorView, NutError};
use vstd::prelude::*;

verus! {

/// Admission control for running many clone pipelines with at most
/// `ceiling` in flight. Entries are started in order; the completion of any
/// one admits the next. Failures are collected: the run fails as a whole, with
/// the first failure, once every pipeline has completed.
pub struct CloneScheduler {
    ceiling: usize,
    total: usize,
    started: usize,
    completed: usize,
    first_failure: Option<NutError>,
}

impl CloneScheduler {
    pub closed spec fn ceiling(&self) -> nat {
        self.ceiling as nat
    }

    pub closed spec fn total(&self) -> nat {
        self.total as nat
    }

    /// How many pipelines have been started.
    pub closed spec fn started(&self) -> nat {
        self.started as nat
    }

    /// How many pipelines have completed.
    pub closed spec fn completed(&self) -> nat {
        self.completed as nat
    }

    /// Whether a completed pipeline has failed.
    pub closed spec fn has_failed(&self) -> bool {
        self.first_failure is Some
    }

    /// The pipelines started and not yet completed.
    pub open spec fn in_flight(&self) -> int {
        self.started() - self.completed()
    }

    /// The scheduler's invariant: a positive ceiling that is never exceeded.
    pub open spec fn wf(&self) -> bool {
        &&& self.ceiling() > 0
        &&& self.completed() <= self.started() <= self.total()
        &&& self.in_flight() <= self.ceiling()
    }

    /// A scheduler for `total` pipelines with at most `ceiling` in flight; a
    /// ceiling of zero is refused before anything is started.
    pub fn new(ceiling: usize, total: usize) -> (r: Result<CloneScheduler, NutError>)
        ensures
            ceiling == 0 <==> (r matches Err(e) && e@ == ErrorView::ZeroParallelism),
            r is Ok <==> ceiling > 0,
            r matches Ok(s) ==> s.wf() && s.ceiling() == ceiling && s.total() == total
                && s.started() == 0 && s.completed() == 0 && !s.has_failed(),
    {
        if ceiling == 0 {
            return Err(NutError::ZeroParallelism);
        }
        Ok(CloneScheduler { ceiling, total, started: 0, completed: 0, first_failure: None })
    }

    /// The index of the next entry to start, when one is queued and a slot is
    /// free.
    pub fn next_to_start(&mut self) -> (r: Option<usize>)
        requires
            old(self).wf(),
        ensures
            final(self).wf(),
            final(self).ceiling() == old(self).ceiling(),
            final(self).total() == old(self).total(),
            final(self).completed() == old(self).completed(),
            final(self).has_failed() == old(self).has_failed(),
            old(self).in_flight() < old(self).ceiling() && old(self).started() < old(self).total() ==> (r
                == Some(old(self).started() as usize) && final(self).started() == old(self).started() + 1),
            !(old(self).in_flight() < old(self).ceiling() && old(self).started() < old(self).total()) ==> (r is None
                && final(self).started() == old(self).started()),
    {
        if self.started - self.completed < self.ceiling && self.started < self.total {
            let i = self.started;
            self.started = self.started + 1;
            Some(i)
        } else {
            None
        }
    }

    /// Records the completion of a started pipeline with its result.
    pub fn complete(&mut self, result: Result<(), NutError>)
        requires
            old(self).wf(),
            old(self).in_flight() > 0,
        ensures
            final(self).wf(),
            final(self).ceiling() == old(self).ceiling(),
            final(self).total() == old(self).total(),
            final(self).started() == old(self).started(),
            final(self).completed() == old(self).completed() + 1,
            final(self).has_failed() == (old(self).has_failed() || result is Err),
    {
        self.completed = self.completed + 1;
        if self.first_failure.is_none() {
            if let Err(e) = result {
                self.first_failure = Some(e);
            }
        }
    }

    /// Whether every pipeline has completed.
    pub fn is_done(&self) -> (r: bool)
        requires
            self.wf(),
        ensures
            r == (self.completed() == self.total()),
    {
        self.completed == self.total
    }

    /// The result of the whole run, once every pipeline has completed: success
    /// exactly when none failed.
    pub fn outcome(self) -> (r: Result<(), NutError>)
        requires
            self.wf(),
            self.completed() == self.total(),
        ensures
            r is Ok <==> !self.has_failed(),
    {
        match self.first_failure {
            Some(e) => Err(e),
            None => Ok(()),
        }
    }
}

} // verus!
