//! The sequential, fail-fast execution protocol.  A `SuiteRun` hands the
//! planned actions out one at a time; the driver carries each out and reports
//! whether it succeeded.  After the first reported failure no further action
//! is ever handed out, and the run's outcome is failure.

use vstd::prelude::*;

use crate::plan::Action;
use crate::plan::ActionV;

verus! {

/// The state of one suite's execution.
pub struct SuiteRun {
    remaining: Vec<Action>,
    has_failed: bool,
    planned: Ghost<Seq<ActionV>>,
    taken: Ghost<nat>,
}

impl SuiteRun {
    /// The full plan this run was started with.
    pub closed spec fn plan(&self) -> Seq<ActionV> {
        self.planned@
    }

    /// How many actions have been handed out so far.
    pub closed spec fn taken_count(&self) -> nat {
        self.taken@
    }

    /// A failure has been reported.
    pub closed spec fn is_failed(&self) -> bool {
        self.has_failed
    }

    /// Internal consistency: what remains is exactly the unhanded tail of the
    /// plan.
    pub closed spec fn wf(&self) -> bool {
        self.taken@ + self.remaining.deep_view().len() == self.planned@.len()
            && self.remaining.deep_view() == self.planned@.skip(self.taken@ as int)
    }

    /// The action the run will hand out next: none once a failure was
    /// reported or the plan is exhausted.
    pub open spec fn available_action(&self) -> Option<ActionV> {
        if self.is_failed() || self.taken_count() >= self.plan().len() {
            None
        } else {
            Some(self.plan()[self.taken_count() as int])
        }
    }

    /// Starts a run over the given plan.
    pub fn new(actions: Vec<Action>) -> (r: SuiteRun)
        ensures
            r.wf(),
            r.plan() == actions.deep_view(),
            r.taken_count() == 0,
            !r.is_failed(),
    {
        let ghost planned = actions.deep_view();
        let r = SuiteRun { remaining: actions, has_failed: false, planned: Ghost(planned), taken: Ghost(0) };
        proof {
            assert(r.remaining.deep_view() =~= r.planned@.skip(0));
        }
        r
    }

    /// Hands out the next action, or nothing once the run has failed or
    /// finished.
    pub fn take_action(&mut self) -> (r: Option<Action>)
        requires
            old(self).wf(),
        ensures
            final(self).wf(),
            final(self).plan() == old(self).plan(),
            final(self).is_failed() == old(self).is_failed(),
            match r {
                Some(a) => {
                    &&& old(self).available_action() == Some(a.deep_view())
                    &&& final(self).taken_count() == old(self).taken_count() + 1
                },
                None => {
                    &&& old(self).available_action() is None
                    &&& final(self).taken_count() == old(self).taken_count()
                },
            },
    {
        if self.has_failed || self.remaining.len() == 0 {
            None
        } else {
            let a = self.remaining.remove(0);
            proof {
                let t = self.taken@;
                assert(old(self).remaining.deep_view()[0] == old(self).planned@.skip(t as int)[0]);
                self.taken@ = t + 1;
                assert(self.remaining.deep_view() =~= old(self).remaining.deep_view().skip(1));
                assert(self.remaining.deep_view() =~= self.planned@.skip(self.taken@ as int));
            }
            Some(a)
        }
    }

    /// Reports whether the latest handed-out action succeeded.  A reported
    /// failure is permanent.
    pub fn report(&mut self, success: bool)
        ensures
            final(self).wf() == old(self).wf(),
            final(self).plan() == old(self).plan(),
            final(self).taken_count() == old(self).taken_count(),
            final(self).is_failed() == (old(self).is_failed() || !success),
    {
        if !success {
            self.has_failed = true;
        }
    }

    /// The run has handed out its whole plan without a failure.
    pub fn finished(&self) -> (r: bool)
        requires
            self.wf(),
        ensures
            r == (!self.is_failed() && self.taken_count() == self.plan().len()),
    {
        !self.has_failed && self.remaining.len() == 0
    }

    /// The run has failed.
    pub fn failed(&self) -> (r: bool)
        ensures
            r == self.is_failed(),
    {
        self.has_failed
    }
}

/// Fail-fast: a run on which a failure was reported hands out no further
/// action, whatever remains of its plan.
pub proof fn lemma_fail_fast(run: SuiteRun)
    requires
        run.is_failed(),
    ensures
        run.available_action() is None,
{
}

/// Failure is permanent: whatever a later report says, a failed run stays
/// failed and still hands out no action.  `before` and `after` are related as
/// `report` relates them.
pub proof fn lemma_failure_is_permanent(before: SuiteRun, after: SuiteRun, success: bool)
    requires
        before.is_failed(),
        after.is_failed() == (before.is_failed() || !success),
    ensures
        after.is_failed(),
        after.available_action() is None,
{
}

} // verus!
