//! Carrying out a plan: which action comes next, and how the run ends.

use crate::action::{Action, ActionView};
use vstd::prelude::*;

verus! {

/// The mathematical form of an [`Execution`]: a plan, how many of its
/// actions have succeeded, and whether the one after them has failed.
pub struct Progress {
    /// The actions to perform, in order.
    pub plan: Seq<ActionView>,
    /// The number of actions that were performed and succeeded.
    pub done: nat,
    /// The action after those failed.
    pub failed: bool,
}

impl Progress {
    /// The state before anything was performed.
    pub open spec fn start(plan: Seq<ActionView>) -> Progress {
        Progress { plan, done: 0, failed: false }
    }

    /// Only an action of the plan can have succeeded or failed.
    pub open spec fn wf(self) -> bool {
        &&& self.done <= self.plan.len()
        &&& self.failed ==> self.done < self.plan.len()
    }

    /// The action to perform now, if the run has not ended.
    pub open spec fn pending(self) -> Option<ActionView> {
        if !self.failed && self.done < self.plan.len() {
            Some(self.plan[self.done as int])
        } else {
            None
        }
    }

    /// The state after the pending action was performed and succeeded
    /// (`ok`) or failed. Once the run has ended, a report changes nothing.
    pub open spec fn report(self, ok: bool) -> Progress {
        if self.pending() is None {
            self
        } else if ok {
            Progress { done: self.done + 1, ..self }
        } else {
            Progress { failed: true, ..self }
        }
    }

    /// How the run ended: with the first failure, or with success once
    /// every action has succeeded. `None` while an action is pending.
    pub open spec fn result(self) -> Option<Result<(), ()>> {
        if self.failed {
            Some(Err(()))
        } else if self.done == self.plan.len() {
            Some(Ok(()))
        } else {
            None
        }
    }

    /// The actions that were handed out so far: those that succeeded and,
    /// after a failure, the one that failed.
    pub open spec fn attempted(self) -> Seq<ActionView> {
        if self.failed {
            self.plan.take(self.done as int + 1)
        } else {
            self.plan.take(self.done as int)
        }
    }

    /// The state after the outcomes of `outcomes` were reported in order.
    pub open spec fn run(self, outcomes: Seq<bool>) -> Progress
        decreases outcomes.len(),
    {
        if outcomes.len() == 0 {
            self
        } else {
            self.run(outcomes.drop_last()).report(outcomes.last())
        }
    }
}

/// The run of one plan.
///
/// The owner of the hardware performs the pending action, reports its
/// outcome, and goes on until nothing is pending. The run ends with the
/// first failure, after which no further action is handed out, or with
/// success after the last action.
pub struct Execution {
    plan: Vec<Action>,
    done: usize,
    failed: bool,
}

impl View for Execution {
    type V = Progress;

    closed spec fn view(&self) -> Progress {
        Progress { plan: self.plan.deep_view(), done: self.done as nat, failed: self.failed }
    }
}

impl Execution {
    #[verifier::type_invariant]
    spec fn inv(self) -> bool {
        self@.wf()
    }

    /// Starts the run of `plan`.
    pub fn new(plan: Vec<Action>) -> (execution: Execution)
        ensures
            execution@ == Progress::start(plan.deep_view()),
    {
        Execution { plan, done: 0, failed: false }
    }

    /// The action to perform now, or `None` if the run has ended.
    pub fn pending(&self) -> (action: Option<&Action>)
        ensures
            match action {
                Some(a) => self@.pending() == Some(a@),
                None => self@.pending() is None,
            },
    {
        if !self.failed && self.done < self.plan.len() {
            Some(&self.plan[self.done])
        } else {
            None
        }
    }

    /// Records the outcome of the pending action. Once the run has ended,
    /// a report changes nothing.
    pub fn report(&mut self, outcome: Result<(), ()>)
        ensures
            final(self)@ == old(self)@.report(outcome is Ok),
    {
        proof {
            use_type_invariant(&*self);
        }
        if !self.failed && self.done < self.plan.len() {
            if outcome.is_ok() {
                self.done = self.done + 1;
            } else {
                self.failed = true;
            }
        }
    }

    /// How the run ended, or `None` while an action is pending.
    pub fn result(&self) -> (result: Option<Result<(), ()>>)
        ensures
            result == self@.result(),
    {
        proof {
            use_type_invariant(self);
        }
        if self.failed {
            Some(Err(()))
        } else if self.done == self.plan.len() {
            Some(Ok(()))
        } else {
            None
        }
    }
}

} // verus!
