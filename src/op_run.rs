//! Performing an action's operations one at a time: an execute stops at the
//! first failure, a revert attempts every operation and collects each
//! failure.
use vstd::prelude::*;

use crate::action::{ActionState, ActionTag, StatefulAction};
use crate::error::{ActionError, ActionErrorKind};
use crate::init_service::{HostFacts, HostOp};

verus! {

/// The failures among `outcomes`, in order.
pub open spec fn failures_of(outcomes: Seq<Result<(), ActionErrorKind>>) -> Seq<ActionErrorKind>
    decreases outcomes.len(),
{
    if outcomes.len() == 0 {
        Seq::empty()
    } else {
        failures_of(outcomes.drop_last()) + match outcomes.last() {
            Ok(_) => Seq::empty(),
            Err(k) => seq![k],
        }
    }
}

/// The state of a run of operations.
pub struct OpRunView {
    pub tag: ActionTag,
    pub ops: Seq<HostOp>,
    /// How many operations were performed.
    pub done: nat,
    pub failures: Seq<ActionErrorKind>,
    /// Go on after a failure (revert) rather than stop (execute).
    pub best_effort: bool,
}

impl OpRunView {
    /// An operation is waiting to be performed.
    pub open spec fn pending(self) -> bool {
        self.done < self.ops.len() && (self.best_effort || self.failures.len() == 0)
    }

    /// The state after the pending operation ended with `outcome`.
    pub open spec fn record(self, outcome: Result<(), ActionErrorKind>) -> OpRunView {
        OpRunView {
            done: self.done + 1,
            failures: self.failures + match outcome {
                Ok(_) => Seq::empty(),
                Err(k) => seq![k],
            },
            ..self
        }
    }

    /// The state after the pending operations ended with `outcomes`, in order.
    pub open spec fn feed(self, outcomes: Seq<Result<(), ActionErrorKind>>) -> OpRunView
        decreases outcomes.len(),
    {
        if outcomes.len() == 0 {
            self
        } else {
            self.feed(outcomes.drop_last()).record(outcomes.last())
        }
    }

    /// `r` is what the run reports: success when nothing failed, the one
    /// failure, or all the failures together.
    pub open spec fn reports(self, r: Result<(), ActionError>) -> bool {
        if self.failures.len() == 0 {
            r is Ok
        } else if self.failures.len() == 1 {
            r == Err::<(), ActionError>(ActionError { tag: self.tag, kind: self.failures[0] })
        } else {
            &&& r is Err
            &&& r->Err_0.tag == self.tag
            &&& r->Err_0.kind is Multiple
            &&& r->Err_0.kind->Multiple_0@ == self.failures
        }
    }
}

/// The operations of one execute or revert, and how far they got.
pub struct OpRun {
    tag: ActionTag,
    ops: Vec<HostOp>,
    done: usize,
    failures: Vec<ActionErrorKind>,
    best_effort: bool,
}

impl View for OpRun {
    type V = OpRunView;

    closed spec fn view(&self) -> OpRunView {
        OpRunView {
            tag: self.tag,
            ops: self.ops@,
            done: self.done as nat,
            failures: self.failures@,
            best_effort: self.best_effort,
        }
    }
}

impl OpRun {
    pub closed spec fn wf(&self) -> bool {
        self.done <= self.ops@.len()
    }

    /// Starts executing `action`: its operations, run until the first
    /// failure, or the error that refuses the execute before any change.
    pub fn execute(action: &StatefulAction, facts: &HostFacts) -> (r: Result<OpRun, ActionError>)
        requires
            action.state == ActionState::Uncompleted,
        ensures
            match action.action.spec_execute_ops(*facts) {
                Ok(ops) => r is Ok && r->Ok_0.wf() && r->Ok_0@ == (OpRunView {
                    tag: action.action.spec_tag(),
                    ops,
                    done: 0,
                    failures: Seq::empty(),
                    best_effort: false,
                }),
                Err(k) => r == Err::<OpRun, ActionError>(
                    ActionError { tag: action.action.spec_tag(), kind: k },
                ),
            },
    {
        let tag = action.action.tag();
        match action.action.execute_ops(facts) {
            Ok(ops) => Ok(OpRun { tag, ops, done: 0, failures: Vec::new(), best_effort: false }),
            Err(kind) => Err(ActionError { tag, kind }),
        }
    }

    /// Starts reverting `action`: all its revert operations are attempted.
    pub fn revert(action: &StatefulAction, facts: &HostFacts) -> (r: OpRun)
        requires
            action.state == ActionState::Completed,
        ensures
            r.wf(),
            r@ == (OpRunView {
                tag: action.action.spec_tag(),
                ops: action.action.spec_revert_ops(*facts),
                done: 0,
                failures: Seq::empty(),
                best_effort: true,
            }),
    {
        let tag = action.action.tag();
        let ops = action.action.revert_ops(facts);
        OpRun { tag, ops, done: 0, failures: Vec::new(), best_effort: true }
    }

    /// The operation to perform next, if any.
    pub fn next_op(&self) -> (r: Option<HostOp>)
        requires
            self.wf(),
        ensures
            r is Some <==> self@.pending(),
            r is Some ==> r->Some_0 == self@.ops[self@.done as int],
    {
        if self.done < self.ops.len() && (self.best_effort || self.failures.len() == 0) {
            Some(self.ops[self.done])
        } else {
            None
        }
    }

    /// Records how the pending operation ended.
    pub fn record(&mut self, outcome: Result<(), ActionErrorKind>)
        requires
            old(self).wf(),
            old(self)@.pending(),
        ensures
            final(self).wf(),
            final(self)@ == old(self)@.record(outcome),
    {
        let n = self.ops.len();
        assert(self.done < n);
        self.done = self.done + 1;
        match outcome {
            Ok(()) => {},
            Err(k) => {
                self.failures.push(k);
            },
        }
        assert(self.failures@ =~= old(self)@.record(outcome).failures);
    }

    /// What the run reports once nothing is pending.
    pub fn finish(self) -> (r: Result<(), ActionError>)
        requires
            self.wf(),
            !self@.pending(),
        ensures
            self@.reports(r),
    {
        let tag = self.tag;
        let mut failures = self.failures;
        if failures.len() == 0 {
            Ok(())
        } else if failures.len() == 1 {
            let kind = failures.pop().unwrap();
            Err(ActionError { tag, kind })
        } else {
            Err(ActionError { tag, kind: ActionErrorKind::Multiple(failures) })
        }
    }
}

/// A revert attempts every one of its operations, whatever the earlier ones
/// did, and reports every failure: after any outcomes of its first steps, the
/// next step is still pending, and the failures kept are exactly those among
/// the outcomes, in order.
pub proof fn revert_attempts_every_step(v: OpRunView, outcomes: Seq<Result<(), ActionErrorKind>>)
    requires
        v.best_effort,
        v.done == 0,
        v.failures.len() == 0,
        outcomes.len() <= v.ops.len(),
    ensures
        v.feed(outcomes).done == outcomes.len(),
        v.feed(outcomes).failures == failures_of(outcomes),
        v.feed(outcomes).ops == v.ops,
        v.feed(outcomes).tag == v.tag,
        v.feed(outcomes).best_effort,
        outcomes.len() < v.ops.len() ==> v.feed(outcomes).pending(),
    decreases outcomes.len(),
{
    if outcomes.len() > 0 {
        revert_attempts_every_step(v, outcomes.drop_last());
    } else {
        assert(failures_of(outcomes) =~= Seq::<ActionErrorKind>::empty());
    }
}

/// An execute stops at its first failure: once an operation has failed,
/// nothing more is pending.
pub proof fn execute_stops_at_first_failure(v: OpRunView, outcome: Result<(), ActionErrorKind>)
    requires
        !v.best_effort,
        v.pending(),
        outcome is Err,
    ensures
        !v.record(outcome).pending(),
        v.record(outcome).failures.len() == 1,
{
}

} // verus!
