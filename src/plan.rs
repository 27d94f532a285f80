//! The plan: settings and an ordered list of planned actions, installed one
//! at a time with rollback on failure, and the receipt from which a later run
//! reverts them.
//!
//! Installing and reverting are sessions: the session says what to do next
//! ([`InstallStep`]), the caller does it and records how it ended.
use vstd::prelude::*;

use crate::action::{texts, Action, ActionDescription, ActionState, DescriptionText, StatefulAction};
use crate::error::{ActionError, InstallError};
use crate::init_service::{plan_refusal, tagged, ConfigureInitService, HostFacts, InitSystem};

verus! {

/// What the plan is built from.
#[derive(Clone, Debug)]
pub struct InstallSettings {
    /// The host's supervisor, resolved before planning.
    pub init: InitSystem,
    /// Start the daemon once it is registered.
    pub start_daemon: bool,
    /// Channel names and their URLs.
    pub channels: Vec<(String, String)>,
    /// Describe each action with its explanation lines as well.
    pub explain: bool,
}

/// Settings and the ordered actions that every planned successfully.
#[derive(Clone, Debug)]
pub struct InstallPlan {
    pub settings: InstallSettings,
    pub actions: Vec<StatefulAction>,
}

/// The actions that an install completed, in the order it completed them.
#[derive(Clone, Debug)]
pub struct Receipt {
    pub actions: Vec<StatefulAction>,
}

/// What a session asks its caller to do next.
#[derive(Clone, Copy, Debug, PartialEq, Eq, Structural)]
pub enum InstallStep {
    /// Execute the action at this index.
    Execute(usize),
    /// Revert the action at this index.
    Revert(usize),
    /// Nothing is left to do: take the result.
    Finished,
}

pub open spec fn all_uncompleted(actions: Seq<StatefulAction>) -> bool {
    forall|i: int| 0 <= i < actions.len() ==> #[trigger] actions[i].state == ActionState::Uncompleted
}

pub open spec fn all_completed(actions: Seq<StatefulAction>) -> bool {
    forall|i: int| 0 <= i < actions.len() ==> #[trigger] actions[i].state == ActionState::Completed
}

pub open spec fn with_state(a: StatefulAction, s: ActionState) -> StatefulAction {
    StatefulAction { action: a.action, state: s }
}

/// The state of an install session.
pub struct InstallView {
    pub actions: Seq<StatefulAction>,
    /// How many actions executed successfully.
    pub completed: nat,
    /// The execute failure that started the rollback.
    pub failure: Option<ActionError>,
    /// How many completed actions the rollback has yet to revert.
    pub pending: nat,
    /// The reverts that failed during the rollback, in order.
    pub revert_errors: Seq<ActionError>,
}

/// The errors among `outcomes`, in order.
pub open spec fn errors_of(outcomes: Seq<Result<(), ActionError>>) -> Seq<ActionError>
    decreases outcomes.len(),
{
    if outcomes.len() == 0 {
        Seq::empty()
    } else {
        errors_of(outcomes.drop_last()) + match outcomes.last() {
            Ok(_) => Seq::empty(),
            Err(e) => seq![e],
        }
    }
}

/// `m` successful outcomes.
pub open spec fn successes(m: nat) -> Seq<Result<(), ActionError>> {
    Seq::new(m, |i: int| Ok::<(), ActionError>(()))
}

/// Execute the actions `0 .. m`, in order.
pub open spec fn executes(m: nat) -> Seq<InstallStep> {
    Seq::new(m, |i: int| InstallStep::Execute(i as usize))
}

/// Revert `m` actions downwards from index `j - 1`: `j - 1, j - 2, ...`.
pub open spec fn reverts_down(j: nat, m: nat) -> Seq<InstallStep> {
    Seq::new(m, |i: int| InstallStep::Revert((j - 1 - i) as usize))
}

impl InstallView {
    pub open spec fn fresh(actions: Seq<StatefulAction>) -> InstallView {
        InstallView {
            actions,
            completed: 0,
            failure: None,
            pending: 0,
            revert_errors: Seq::empty(),
        }
    }

    /// What the session asks for in this state.
    pub open spec fn request(self) -> InstallStep {
        match self.failure {
            None => if self.completed < self.actions.len() {
                InstallStep::Execute(self.completed as usize)
            } else {
                InstallStep::Finished
            },
            Some(_) => if self.pending > 0 {
                InstallStep::Revert((self.pending - 1) as usize)
            } else {
                InstallStep::Finished
            },
        }
    }

    /// The state after the requested step ended with `outcome`.
    pub open spec fn record(self, outcome: Result<(), ActionError>) -> InstallView {
        match self.request() {
            InstallStep::Execute(i) => match outcome {
                Ok(_) => InstallView {
                    actions: self.actions.update(
                        i as int,
                        with_state(self.actions[i as int], ActionState::Completed),
                    ),
                    completed: self.completed + 1,
                    ..self
                },
                Err(e) => InstallView { failure: Some(e), pending: self.completed, ..self },
            },
            InstallStep::Revert(i) => match outcome {
                Ok(_) => InstallView {
                    actions: self.actions.update(
                        i as int,
                        with_state(self.actions[i as int], ActionState::Uncompleted),
                    ),
                    pending: i as nat,
                    ..self
                },
                Err(e) => InstallView {
                    pending: i as nat,
                    revert_errors: self.revert_errors.push(e),
                    ..self
                },
            },
            InstallStep::Finished => self,
        }
    }

    /// The state after the requested steps ended with `outcomes`, in order.
    pub open spec fn feed(self, outcomes: Seq<Result<(), ActionError>>) -> InstallView
        decreases outcomes.len(),
    {
        if outcomes.len() == 0 {
            self
        } else {
            self.feed(outcomes.drop_last()).record(outcomes.last())
        }
    }

    /// The steps requested while the outcomes `outcomes` came back.
    pub open spec fn requests(self, outcomes: Seq<Result<(), ActionError>>) -> Seq<InstallStep>
        decreases outcomes.len(),
    {
        if outcomes.len() == 0 {
            Seq::empty()
        } else {
            self.requests(outcomes.drop_last()).push(self.feed(outcomes.drop_last()).request())
        }
    }

    /// `r` is what the finished session surfaces: the receipt of every
    /// action; or the execute failure alone when every revert succeeded; or
    /// that failure together with every failed revert.
    pub open spec fn reports(self, r: Result<Receipt, InstallError>) -> bool {
        match self.failure {
            None => r is Ok && r->Ok_0.actions@ == self.actions,
            Some(e) => if self.revert_errors.len() == 0 {
                r == Err::<Receipt, InstallError>(InstallError::Action(e))
            } else {
                &&& r is Err
                &&& r->Err_0 is FailedReverts
                &&& r->Err_0->FailedReverts_0@ == seq![e]
                &&& r->Err_0->FailedReverts_1@ == self.revert_errors
            },
        }
    }

    /// Executed actions are completed, the others are not; during a rollback
    /// the actions still to revert are completed.
    pub open spec fn wf(self) -> bool {
        &&& self.completed <= self.actions.len()
        &&& self.pending <= self.completed
        &&& self.failure is None ==> self.pending == 0
        &&& self.failure is None ==> forall|i: int|
            0 <= i < self.actions.len() ==> (#[trigger] self.actions[i].state == ActionState::Completed
                <==> i < self.completed)
        &&& self.failure is Some ==> self.completed < self.actions.len()
        &&& self.failure is Some ==> forall|i: int|
            0 <= i < self.pending ==> #[trigger] self.actions[i].state == ActionState::Completed
    }
}

/// An install session over a plan's actions.
pub struct Install {
    actions: Vec<StatefulAction>,
    completed: usize,
    failure: Option<ActionError>,
    pending: usize,
    revert_errors: Vec<ActionError>,
}

impl View for Install {
    type V = InstallView;

    closed spec fn view(&self) -> InstallView {
        InstallView {
            actions: self.actions@,
            completed: self.completed as nat,
            failure: self.failure,
            pending: self.pending as nat,
            revert_errors: self.revert_errors@,
        }
    }
}

impl InstallPlan {
    /// Plans every action for `settings` on a host with `facts`; the first
    /// planning failure is returned and nothing is changed on the host.
    pub fn new(settings: InstallSettings, facts: &HostFacts) -> (r: Result<InstallPlan, ActionError>)
        ensures
            match plan_refusal(settings.init, *facts) {
                Some(k) => r == Err::<InstallPlan, ActionError>(tagged(k)),
                None => r is Ok && r->Ok_0.settings == settings && r->Ok_0.actions@ == seq![
                    StatefulAction {
                        action: Action::ConfigureInitService(
                            ConfigureInitService {
                                init: settings.init,
                                start_daemon: settings.start_daemon,
                            },
                        ),
                        state: ActionState::Uncompleted,
                    },
                ],
            },
    {
        let configure = ConfigureInitService::plan(settings.init, settings.start_daemon, facts)?;
        let mut actions: Vec<StatefulAction> = Vec::new();
        actions.push(configure);
        Ok(InstallPlan { settings, actions })
    }

    /// A plan of actions that were each planned already.
    pub fn from_actions(settings: InstallSettings, actions: Vec<StatefulAction>) -> (r: InstallPlan)
        requires
            all_uncompleted(actions@),
        ensures
            r.settings == settings,
            r.actions == actions,
    {
        InstallPlan { settings, actions }
    }

    /// Starts installing: the actions are executed strictly in order; on the
    /// first failure the completed ones are reverted, last first.
    pub fn install(self) -> (r: Install)
        requires
            all_uncompleted(self.actions@),
        ensures
            r@ == InstallView::fresh(self.actions@),
            r@.wf(),
    {
        Install {
            actions: self.actions,
            completed: 0,
            failure: None,
            pending: 0,
            revert_errors: Vec::new(),
        }
    }
}

impl Install {
    /// The step to perform next. An action asked to execute is uncompleted;
    /// one asked to revert is completed.
    pub fn next(&self) -> (r: InstallStep)
        requires
            self@.wf(),
        ensures
            r == self@.request(),
            r matches InstallStep::Execute(i) ==> i < self@.actions.len()
                && self@.actions[i as int].state == ActionState::Uncompleted,
            r matches InstallStep::Revert(i) ==> i < self@.actions.len()
                && self@.actions[i as int].state == ActionState::Completed,
    {
        match self.failure {
            None => if self.completed < self.actions.len() {
                InstallStep::Execute(self.completed)
            } else {
                InstallStep::Finished
            },
            Some(_) => if self.pending > 0 {
                InstallStep::Revert(self.pending - 1)
            } else {
                InstallStep::Finished
            },
        }
    }

    /// The action at index `i`.
    pub fn action(&self, i: usize) -> (r: &StatefulAction)
        requires
            i < self@.actions.len(),
        ensures
            *r == self@.actions[i as int],
    {
        &self.actions[i]
    }

    /// Records how the requested step ended.
    pub fn record(&mut self, outcome: Result<(), ActionError>)
        requires
            old(self)@.wf(),
        ensures
            final(self)@ == old(self)@.record(outcome),
            final(self)@.wf(),
    {
        let step = self.next();
        match step {
            InstallStep::Execute(i) => match outcome {
                Ok(()) => {
                    let mut a = self.actions[i];
                    a.mark_completed();
                    self.actions.set(i, a);
                    self.completed = self.completed + 1;
                },
                Err(e) => {
                    self.failure = Some(e);
                    self.pending = self.completed;
                },
            },
            InstallStep::Revert(i) => {
                self.pending = i;
                match outcome {
                    Ok(()) => {
                        let mut a = self.actions[i];
                        a.mark_uncompleted();
                        self.actions.set(i, a);
                    },
                    Err(e) => {
                        self.revert_errors.push(e);
                    },
                }
            },
            InstallStep::Finished => {},
        }
        assert(self@ =~= old(self)@.record(outcome));
    }

    /// The receipt of a successful install, or the error surfaced.
    pub fn finish(self) -> (r: Result<Receipt, InstallError>)
        requires
            self@.wf(),
            self@.request() == InstallStep::Finished,
        ensures
            self@.reports(r),
    {
        match self.failure {
            None => Ok(Receipt { actions: self.actions }),
            Some(e) => if self.revert_errors.len() == 0 {
                Err(InstallError::Action(e))
            } else {
                let mut primary: Vec<ActionError> = Vec::new();
                primary.push(e);
                assert(primary@ =~= seq![e]);
                Err(InstallError::FailedReverts(primary, self.revert_errors))
            },
        }
    }
}

proof fn lemma_feed_concat(v: InstallView, a: Seq<Result<(), ActionError>>, b: Seq<Result<(), ActionError>>)
    ensures
        v.feed(a + b) == v.feed(a).feed(b),
        v.requests(a + b) == v.requests(a) + v.feed(a).requests(b),
    decreases b.len(),
{
    if b.len() == 0 {
        assert(a + b =~= a);
        assert(v.requests(a) + v.feed(a).requests(b) =~= v.requests(a));
    } else {
        assert((a + b).drop_last() =~= a + b.drop_last());
        assert((a + b).last() == b.last());
        lemma_feed_concat(v, a, b.drop_last());
        assert(v.requests(a + b) =~= v.requests(a) + v.feed(a).requests(b));
    }
}

/// While every execute succeeds, the session asks for the actions in order.
proof fn lemma_forward(v: InstallView, m: nat)
    requires
        v.failure is None,
        v.completed == 0,
        v.pending == 0,
        m <= v.actions.len(),
    ensures
        v.feed(successes(m)).failure is None,
        v.feed(successes(m)).completed == m,
        v.feed(successes(m)).pending == 0,
        v.feed(successes(m)).revert_errors == v.revert_errors,
        v.feed(successes(m)).actions.len() == v.actions.len(),
        v.requests(successes(m)) == executes(m),
    decreases m,
{
    if m > 0 {
        assert(successes(m).drop_last() =~= successes((m - 1) as nat));
        lemma_forward(v, (m - 1) as nat);
        assert(v.requests(successes(m)) =~= executes(m));
    } else {
        assert(v.requests(successes(m)) =~= executes(m));
    }
}

/// During a rollback the session asks for the completed actions, last first,
/// and keeps every revert error.
proof fn lemma_rollback(w: InstallView, rs: Seq<Result<(), ActionError>>)
    requires
        w.failure is Some,
        rs.len() <= w.pending,
        w.pending <= w.actions.len(),
        w.pending <= usize::MAX,
    ensures
        w.feed(rs).failure == w.failure,
        w.feed(rs).pending == w.pending - rs.len(),
        w.feed(rs).revert_errors == w.revert_errors + errors_of(rs),
        w.feed(rs).actions.len() == w.actions.len(),
        w.requests(rs) == reverts_down(w.pending, rs.len()),
    decreases rs.len(),
{
    if rs.len() > 0 {
        lemma_rollback(w, rs.drop_last());
        let prev = w.feed(rs.drop_last());
        assert(w.feed(rs) == prev.record(rs.last()));
        assert(errors_of(rs) == errors_of(rs.drop_last()) + match rs.last() {
            Ok(_) => Seq::empty(),
            Err(e) => seq![e],
        });
        match rs.last() {
            Ok(_) => {
                assert(w.revert_errors + errors_of(rs) =~= prev.revert_errors);
            },
            Err(e) => {
                assert(w.revert_errors + errors_of(rs) =~= prev.revert_errors.push(e));
            },
        }
        assert(w.requests(rs) =~= reverts_down(w.pending, rs.len()));
    } else {
        assert(w.revert_errors + errors_of(rs) =~= w.revert_errors);
        assert(w.requests(rs) =~= reverts_down(w.pending, rs.len()));
    }
}

/// The outcomes of an install whose first `j` executes succeed, whose next
/// execute fails with `e`, and whose reverts then end with `rs`.
pub open spec fn failing_run(j: nat, e: ActionError, rs: Seq<Result<(), ActionError>>) -> Seq<
    Result<(), ActionError>,
> {
    successes(j) + seq![Err::<(), ActionError>(e)] + rs
}

proof fn lemma_failing_run(actions: Seq<StatefulAction>, j: nat, e: ActionError, rs: Seq<Result<(), ActionError>>)
    requires
        j < actions.len(),
        actions.len() <= usize::MAX,
        rs.len() <= j,
    ensures
        InstallView::fresh(actions).requests(failing_run(j, e, rs)) == executes(j + 1) + reverts_down(
            j,
            rs.len(),
        ),
        InstallView::fresh(actions).feed(failing_run(j, e, rs)).failure == Some(e),
        InstallView::fresh(actions).feed(failing_run(j, e, rs)).pending == j - rs.len(),
        InstallView::fresh(actions).feed(failing_run(j, e, rs)).revert_errors == errors_of(rs),
{
    let v = InstallView::fresh(actions);
    let head = successes(j);
    let fail = seq![Err::<(), ActionError>(e)];
    lemma_forward(v, j);
    lemma_feed_concat(v, head, fail);
    let w0 = v.feed(head);
    assert(fail.drop_last() =~= Seq::<Result<(), ActionError>>::empty());
    assert(fail.last() == Err::<(), ActionError>(e));
    assert(w0.feed(fail.drop_last()) == w0);
    let w = v.feed(head + fail);
    assert(w == w0.record(Err(e)));
    assert(w0.requests(fail.drop_last()) =~= Seq::<InstallStep>::empty());
    assert(v.feed(head).requests(fail) =~= seq![InstallStep::Execute(j as usize)]);
    lemma_feed_concat(v, head + fail, rs);
    lemma_rollback(w, rs);
    assert(w.revert_errors + errors_of(rs) =~= errors_of(rs));
    assert(executes(j) + seq![InstallStep::Execute(j as usize)] =~= executes(j + 1));
}

/// When the execute of action `j` (counting from 0) fails after actions
/// `0 .. j` succeeded, the session reverts exactly actions `j - 1`, ...,
/// `0`, in that order, and then finishes: it never reverts action `j` or any
/// later one, whatever the reverts report.
pub proof fn install_reverts_completed_actions_in_reverse(
    actions: Seq<StatefulAction>,
    j: nat,
    e: ActionError,
    rs: Seq<Result<(), ActionError>>,
)
    requires
        j < actions.len(),
        actions.len() <= usize::MAX,
        rs.len() <= j,
    ensures
        InstallView::fresh(actions).requests(failing_run(j, e, rs)) == executes(j + 1) + reverts_down(
            j,
            rs.len(),
        ),
        InstallView::fresh(actions).feed(failing_run(j, e, rs)).request() == if rs.len() < j {
            InstallStep::Revert((j - 1 - rs.len()) as usize)
        } else {
            InstallStep::Finished
        },
{
    lemma_failing_run(actions, j, e, rs);
}

proof fn lemma_errors_of_successes(rs: Seq<Result<(), ActionError>>)
    requires
        forall|i: int| 0 <= i < rs.len() ==> #[trigger] rs[i] is Ok,
    ensures
        errors_of(rs).len() == 0,
    decreases rs.len(),
{
    if rs.len() > 0 {
        lemma_errors_of_successes(rs.drop_last());
    }
}

proof fn lemma_errors_of_contains(rs: Seq<Result<(), ActionError>>, i: int)
    requires
        0 <= i < rs.len(),
        rs[i] is Err,
    ensures
        errors_of(rs).contains(rs[i]->Err_0),
    decreases rs.len(),
{
    if i == rs.len() - 1 {
        assert(errors_of(rs)[errors_of(rs).len() - 1] == rs[i]->Err_0);
    } else {
        lemma_errors_of_contains(rs.drop_last(), i);
        let k = choose|k: int| 0 <= k < errors_of(rs.drop_last()).len() && errors_of(rs.drop_last())[k] == rs[i]->Err_0;
        assert(errors_of(rs)[k] == rs[i]->Err_0);
    }
}

/// When the execute of action `j` fails with `e` and every revert of the
/// rollback succeeds, the install surfaces exactly `e`.
pub proof fn clean_rollback_surfaces_the_failure(
    actions: Seq<StatefulAction>,
    j: nat,
    e: ActionError,
    rs: Seq<Result<(), ActionError>>,
    r: Result<Receipt, InstallError>,
)
    requires
        j < actions.len(),
        actions.len() <= usize::MAX,
        rs.len() == j,
        forall|i: int| 0 <= i < rs.len() ==> #[trigger] rs[i] is Ok,
        InstallView::fresh(actions).feed(failing_run(j, e, rs)).reports(r),
    ensures
        InstallView::fresh(actions).feed(failing_run(j, e, rs)).request() == InstallStep::Finished,
        r == Err::<Receipt, InstallError>(InstallError::Action(e)),
{
    lemma_failing_run(actions, j, e, rs);
    lemma_errors_of_successes(rs);
}

/// When the execute of action `j` fails with `e` and some revert of the
/// rollback fails, the install surfaces `e` together with every revert
/// error, in the order the reverts ran, none left out.
pub proof fn failed_rollback_surfaces_every_failure(
    actions: Seq<StatefulAction>,
    j: nat,
    e: ActionError,
    rs: Seq<Result<(), ActionError>>,
    r: Result<Receipt, InstallError>,
)
    requires
        j < actions.len(),
        actions.len() <= usize::MAX,
        rs.len() == j,
        exists|i: int| 0 <= i < rs.len() && #[trigger] rs[i] is Err,
        InstallView::fresh(actions).feed(failing_run(j, e, rs)).reports(r),
    ensures
        InstallView::fresh(actions).feed(failing_run(j, e, rs)).request() == InstallStep::Finished,
        r is Err,
        r->Err_0 is FailedReverts,
        r->Err_0->FailedReverts_0@ == seq![e],
        r->Err_0->FailedReverts_1@ == errors_of(rs),
        forall|i: int|
            0 <= i < rs.len() && #[trigger] rs[i] is Err ==> r->Err_0->FailedReverts_1@.contains(
                rs[i]->Err_0,
            ),
{
    lemma_failing_run(actions, j, e, rs);
    let i = choose|i: int| 0 <= i < rs.len() && #[trigger] rs[i] is Err;
    lemma_errors_of_contains(rs, i);
    assert forall|i: int| 0 <= i < rs.len() && #[trigger] rs[i] is Err implies errors_of(rs).contains(
        rs[i]->Err_0,
    ) by {
        lemma_errors_of_contains(rs, i);
    }
}

/// The state of a standalone revert of a receipt.
pub struct RevertView {
    pub actions: Seq<StatefulAction>,
    /// How many actions are yet to be reverted; the next is the last of them.
    pub pending: nat,
    /// The reverts that failed, in order.
    pub errors: Seq<ActionError>,
}

impl RevertView {
    pub open spec fn start(actions: Seq<StatefulAction>) -> RevertView {
        RevertView { actions, pending: actions.len(), errors: Seq::empty() }
    }

    pub open spec fn request(self) -> InstallStep {
        if self.pending > 0 {
            InstallStep::Revert((self.pending - 1) as usize)
        } else {
            InstallStep::Finished
        }
    }

    pub open spec fn record(self, outcome: Result<(), ActionError>) -> RevertView {
        if self.pending > 0 {
            let i = (self.pending - 1) as int;
            match outcome {
                Ok(_) => RevertView {
                    actions: self.actions.update(i, with_state(self.actions[i], ActionState::Uncompleted)),
                    pending: i as nat,
                    ..self
                },
                Err(e) => RevertView { pending: i as nat, errors: self.errors.push(e), ..self },
            }
        } else {
            self
        }
    }

    pub open spec fn feed(self, outcomes: Seq<Result<(), ActionError>>) -> RevertView
        decreases outcomes.len(),
    {
        if outcomes.len() == 0 {
            self
        } else {
            self.feed(outcomes.drop_last()).record(outcomes.last())
        }
    }

    pub open spec fn requests(self, outcomes: Seq<Result<(), ActionError>>) -> Seq<InstallStep>
        decreases outcomes.len(),
    {
        if outcomes.len() == 0 {
            Seq::empty()
        } else {
            self.requests(outcomes.drop_last()).push(self.feed(outcomes.drop_last()).request())
        }
    }

    /// `r` is what the finished revert surfaces: success, or every failed
    /// revert.
    pub open spec fn reports(self, r: Result<(), InstallError>) -> bool {
        if self.errors.len() == 0 {
            r is Ok
        } else {
            &&& r is Err
            &&& r->Err_0 is FailedReverts
            &&& r->Err_0->FailedReverts_0@.len() == 0
            &&& r->Err_0->FailedReverts_1@ == self.errors
        }
    }

    pub open spec fn wf(self) -> bool {
        &&& self.pending <= self.actions.len()
        &&& forall|i: int| 0 <= i < self.pending ==> #[trigger] self.actions[i].state == ActionState::Completed
    }
}

/// A standalone revert of the actions of a receipt, last first.
pub struct RevertRun {
    actions: Vec<StatefulAction>,
    pending: usize,
    errors: Vec<ActionError>,
}

impl View for RevertRun {
    type V = RevertView;

    closed spec fn view(&self) -> RevertView {
        RevertView { actions: self.actions@, pending: self.pending as nat, errors: self.errors@ }
    }
}

impl Receipt {
    /// Every action of the receipt is completed, as an install leaves them.
    pub fn is_complete(&self) -> (r: bool)
        ensures
            r == all_completed(self.actions@),
    {
        let mut i: usize = 0;
        while i < self.actions.len()
            invariant
                i <= self.actions@.len(),
                forall|k: int| 0 <= k < i ==> #[trigger] self.actions@[k].state == ActionState::Completed,
            decreases self.actions@.len() - i,
        {
            if self.actions[i].state != ActionState::Completed {
                return false;
            }
            i = i + 1;
        }
        true
    }

    /// Starts reverting the receipt's actions, last first, without planning
    /// anything again.
    pub fn revert(self) -> (r: RevertRun)
        requires
            all_completed(self.actions@),
        ensures
            r@ == RevertView::start(self.actions@),
            r@.wf(),
    {
        let n = self.actions.len();
        RevertRun { actions: self.actions, pending: n, errors: Vec::new() }
    }
}

impl RevertRun {
    /// The step to perform next; the action asked to revert is completed.
    pub fn next(&self) -> (r: InstallStep)
        requires
            self@.wf(),
        ensures
            r == self@.request(),
            r matches InstallStep::Revert(i) ==> i < self@.actions.len()
                && self@.actions[i as int].state == ActionState::Completed,
    {
        if self.pending > 0 {
            InstallStep::Revert(self.pending - 1)
        } else {
            InstallStep::Finished
        }
    }

    /// The action at index `i`.
    pub fn action(&self, i: usize) -> (r: &StatefulAction)
        requires
            i < self@.actions.len(),
        ensures
            *r == self@.actions[i as int],
    {
        &self.actions[i]
    }

    /// Records how the requested revert ended.
    pub fn record(&mut self, outcome: Result<(), ActionError>)
        requires
            old(self)@.wf(),
        ensures
            final(self)@ == old(self)@.record(outcome),
            final(self)@.wf(),
    {
        if self.pending > 0 {
            let i = self.pending - 1;
            self.pending = i;
            match outcome {
                Ok(()) => {
                    let mut a = self.actions[i];
                    a.mark_uncompleted();
                    self.actions.set(i, a);
                },
                Err(e) => {
                    self.errors.push(e);
                },
            }
        }
        assert(self@ =~= old(self)@.record(outcome));
    }

    /// What the revert surfaces once finished.
    pub fn finish(self) -> (r: Result<(), InstallError>)
        requires
            self@.request() == InstallStep::Finished,
        ensures
            self@.reports(r),
    {
        if self.errors.len() == 0 {
            Ok(())
        } else {
            Err(InstallError::FailedReverts(Vec::new(), self.errors))
        }
    }
}

proof fn lemma_revert_run(v: RevertView, rs: Seq<Result<(), ActionError>>)
    requires
        rs.len() <= v.pending,
        v.pending <= v.actions.len(),
        v.pending <= usize::MAX,
    ensures
        v.feed(rs).pending == v.pending - rs.len(),
        v.feed(rs).errors == v.errors + errors_of(rs),
        v.feed(rs).actions.len() == v.actions.len(),
        v.requests(rs) == reverts_down(v.pending, rs.len()),
    decreases rs.len(),
{
    if rs.len() > 0 {
        lemma_revert_run(v, rs.drop_last());
        let prev = v.feed(rs.drop_last());
        assert(v.feed(rs) == prev.record(rs.last()));
        match rs.last() {
            Ok(_) => {
                assert(v.errors + errors_of(rs) =~= prev.errors);
            },
            Err(e) => {
                assert(v.errors + errors_of(rs) =~= prev.errors.push(e));
            },
        }
        assert(v.requests(rs) =~= reverts_down(v.pending, rs.len()));
    } else {
        assert(v.errors + errors_of(rs) =~= v.errors);
        assert(v.requests(rs) =~= reverts_down(v.pending, rs.len()));
    }
}

/// Reverting a receipt of `k` actions asks for exactly the reverts of actions
/// `k - 1`, ..., `0`, in that order, and then finishes, whatever each revert
/// reports; it keeps every revert error, in order. No index outside the
/// receipt is ever asked for.
pub proof fn receipt_revert_walks_backwards(
    actions: Seq<StatefulAction>,
    rs: Seq<Result<(), ActionError>>,
)
    requires
        rs.len() == actions.len(),
        actions.len() <= usize::MAX,
    ensures
        RevertView::start(actions).requests(rs) == reverts_down(actions.len(), actions.len()),
        RevertView::start(actions).feed(rs).request() == InstallStep::Finished,
        RevertView::start(actions).feed(rs).errors == errors_of(rs),
{
    let v = RevertView::start(actions);
    lemma_revert_run(v, rs);
    assert(v.errors + errors_of(rs) =~= errors_of(rs));
}

pub open spec fn os_name(init: InitSystem) -> &'static str {
    match init {
        InitSystem::Launchd => "macOS",
        _ => "Linux",
    }
}

pub open spec fn init_name(init: InitSystem) -> &'static str {
    match init {
        InitSystem::Systemd => "systemd",
        InitSystem::Launchd => "launchd",
        InitSystem::OpenRC => "openrc",
        InitSystem::Runit => "runit",
        InitSystem::NoInit => "none",
    }
}

/// `name=url`.
pub open spec fn channel_text(c: (String, String)) -> Seq<char> {
    c.0@ + "="@ + c.1@
}

/// The channels, comma-separated.
pub open spec fn channels_text(cs: Seq<(String, String)>) -> Seq<char>
    decreases cs.len(),
{
    if cs.len() == 0 {
        Seq::empty()
    } else if cs.len() == 1 {
        channel_text(cs[0])
    } else {
        channels_text(cs.drop_last()) + ","@ + channel_text(cs.last())
    }
}

/// Each explanation line, indented, on a line of its own.
pub open spec fn explanation_text(ls: Seq<Seq<char>>) -> Seq<char>
    decreases ls.len(),
{
    if ls.len() == 0 {
        Seq::empty()
    } else {
        explanation_text(ls.drop_last()) + "  "@ + ls.last() + "\n"@
    }
}

/// A bullet with the synopsis, followed by the explanation when `explain`.
pub open spec fn block_text(d: DescriptionText, explain: bool) -> Seq<char> {
    "* "@ + d.description + "\n"@ + if explain {
        explanation_text(d.explanation)
    } else {
        Seq::empty()
    }
}

/// The blocks of all descriptions, separated by empty lines.
pub open spec fn blocks_text(ds: Seq<DescriptionText>, explain: bool) -> Seq<char>
    decreases ds.len(),
{
    if ds.len() == 0 {
        Seq::empty()
    } else if ds.len() == 1 {
        block_text(ds[0], explain)
    } else {
        blocks_text(ds.drop_last(), explain) + "\n"@ + block_text(ds.last(), explain)
    }
}

/// The execute descriptions of every action, in order.
pub open spec fn plan_descriptions(actions: Seq<StatefulAction>) -> Seq<DescriptionText>
    decreases actions.len(),
{
    if actions.len() == 0 {
        Seq::empty()
    } else {
        plan_descriptions(actions.drop_last()) + actions.last().action.spec_execute_description()
    }
}

fn os_name_of(init: InitSystem) -> (r: &'static str)
    ensures
        r == os_name(init),
{
    match init {
        InitSystem::Launchd => "macOS",
        _ => "Linux",
    }
}

fn init_name_of(init: InitSystem) -> (r: &'static str)
    ensures
        r == init_name(init),
{
    match init {
        InitSystem::Systemd => "systemd",
        InitSystem::Launchd => "launchd",
        InitSystem::OpenRC => "openrc",
        InitSystem::Runit => "runit",
        InitSystem::NoInit => "none",
    }
}

fn push_channels(buf: &mut String, cs: &Vec<(String, String)>)
    ensures
        final(buf)@ == old(buf)@ + channels_text(cs@),
{
    let ghost start = buf@;
    let mut i: usize = 0;
    while i < cs.len()
        invariant
            i <= cs@.len(),
            buf@ == start + channels_text(cs@.take(i as int)),
        decreases cs@.len() - i,
    {
        let ghost before = buf@;
        if i > 0 {
            buf.append(",");
        }
        buf.append(cs[i].0.as_str());
        buf.append("=");
        buf.append(cs[i].1.as_str());
        proof {
            let t = cs@.take(i + 1);
            assert(t.drop_last() =~= cs@.take(i as int));
            assert(t.last() == cs@[i as int]);
            if i == 0 {
                assert(channels_text(cs@.take(0)) =~= Seq::<char>::empty());
                assert(buf@ =~= start + channels_text(t));
            } else {
                assert(buf@ =~= start + channels_text(t));
            }
        }
        i = i + 1;
    }
    assert(cs@.take(cs@.len() as int) =~= cs@);
}

fn push_block(buf: &mut String, d: &ActionDescription, explain: bool)
    ensures
        final(buf)@ == old(buf)@ + block_text(d@, explain),
{
    let ghost start = buf@;
    buf.append("* ");
    buf.append(d.description.as_str());
    buf.append("\n");
    let ghost head = buf@;
    if explain {
        let ls = &d.explanation;
        let ghost texts_of = ls@.map_values(|l: String| l@);
        let mut i: usize = 0;
        while i < ls.len()
            invariant
                i <= ls@.len(),
                texts_of == ls@.map_values(|l: String| l@),
                buf@ == head + explanation_text(texts_of.take(i as int)),
            decreases ls@.len() - i,
        {
            buf.append("  ");
            buf.append(ls[i].as_str());
            buf.append("\n");
            proof {
                let t = texts_of.take(i + 1);
                assert(t.drop_last() =~= texts_of.take(i as int));
                assert(t.last() == ls@[i as int]@);
                assert(buf@ =~= head + explanation_text(t));
            }
            i = i + 1;
        }
        assert(texts_of.take(ls@.len() as int) =~= texts_of);
        assert(buf@ =~= start + block_text(d@, explain));
    } else {
        assert(buf@ =~= start + block_text(d@, explain));
    }
}

fn push_blocks(buf: &mut String, ds: &Vec<ActionDescription>, explain: bool)
    ensures
        final(buf)@ == old(buf)@ + blocks_text(texts(ds@), explain),
{
    let ghost start = buf@;
    let ghost all = texts(ds@);
    let mut i: usize = 0;
    while i < ds.len()
        invariant
            i <= ds@.len(),
            all == texts(ds@),
            buf@ == start + blocks_text(all.take(i as int), explain),
        decreases ds@.len() - i,
    {
        if i > 0 {
            buf.append("\n");
        }
        push_block(buf, &ds[i], explain);
        proof {
            let t = all.take(i + 1);
            assert(t.drop_last() =~= all.take(i as int));
            assert(t.last() == ds@[i as int]@);
            if i == 0 {
                assert(blocks_text(all.take(0), explain) =~= Seq::<char>::empty());
                assert(buf@ =~= start + blocks_text(t, explain));
            } else {
                assert(buf@ =~= start + blocks_text(t, explain));
            }
        }
        i = i + 1;
    }
    assert(all.take(ds@.len() as int) =~= all);
}

fn collect_descriptions(actions: &Vec<StatefulAction>) -> (r: Vec<ActionDescription>)
    ensures
        texts(r@) == plan_descriptions(actions@),
{
    let mut out: Vec<ActionDescription> = Vec::new();
    let mut i: usize = 0;
    while i < actions.len()
        invariant
            i <= actions@.len(),
            texts(out@) == plan_descriptions(actions@.take(i as int)),
        decreases actions@.len() - i,
    {
        let mut ds = actions[i].action.execute_description();
        let ghost before = out@;
        let ghost added = ds@;
        out.append(&mut ds);
        proof {
            let t = actions@.take(i + 1);
            assert(t.drop_last() =~= actions@.take(i as int));
            assert(t.last() == actions@[i as int]);
            assert(texts(out@) =~= texts(before) + texts(added));
        }
        i = i + 1;
    }
    assert(actions@.take(actions@.len() as int) =~= actions@);
    out
}

/// The revert descriptions of the actions, last action first.
pub open spec fn revert_descriptions(actions: Seq<StatefulAction>) -> Seq<DescriptionText>
    decreases actions.len(),
{
    if actions.len() == 0 {
        Seq::empty()
    } else {
        actions.last().action.spec_revert_description() + revert_descriptions(actions.drop_last())
    }
}

impl Receipt {
    /// Describes what reverting the receipt will do, in the order it is done.
    pub fn describe_revert(&self) -> (r: Vec<ActionDescription>)
        ensures
            texts(r@) == revert_descriptions(self.actions@),
    {
        let mut out: Vec<ActionDescription> = Vec::new();
        let mut i: usize = 0;
        while i < self.actions.len()
            invariant
                i <= self.actions@.len(),
                texts(out@) == revert_descriptions(self.actions@.take(i as int)),
            decreases self.actions@.len() - i,
        {
            let mut ds = self.actions[i].action.revert_description();
            let ghost before = out@;
            let ghost added = ds@;
            ds.append(&mut out);
            out = ds;
            proof {
                let t = self.actions@.take(i + 1);
                assert(t.drop_last() =~= self.actions@.take(i as int));
                assert(t.last() == self.actions@[i as int]);
                assert(texts(out@) =~= texts(added) + texts(before));
            }
            i = i + 1;
        }
        assert(self.actions@.take(self.actions@.len() as int) =~= self.actions@);
        out
    }
}

/// Renders descriptions as bullets separated by empty lines, each followed
/// by its explanation lines when `explain`.
pub fn render_descriptions(ds: &Vec<ActionDescription>, explain: bool) -> (r: String)
    ensures
        r@ == blocks_text(texts(ds@), explain),
{
    let mut buf = String::new();
    push_blocks(&mut buf, ds, explain);
    buf
}

impl InstallPlan {
    /// The text shown before installing: the host's setup, the channels,
    /// and what each action will do (with explanations when the settings
    /// ask for them).
    pub open spec fn spec_description(self) -> Seq<char> {
        "This Nix install is for:\nOperating System: "@ + os_name(self.settings.init)@
            + "\nInit system: "@ + init_name(self.settings.init)@ + "\nNix channels: "@
            + channels_text(self.settings.channels@) + "\n\nThe following actions will be taken:\n"@
            + blocks_text(plan_descriptions(self.actions@), self.settings.explain) + "\n"@
    }

    /// Describes the plan, before anything is executed.
    pub fn description(&self) -> (r: String)
        ensures
            r@ == self.spec_description(),
    {
        let mut buf = String::new();
        buf.append("This Nix install is for:\nOperating System: ");
        buf.append(os_name_of(self.settings.init));
        buf.append("\nInit system: ");
        buf.append(init_name_of(self.settings.init));
        buf.append("\nNix channels: ");
        push_channels(&mut buf, &self.settings.channels);
        buf.append("\n\nThe following actions will be taken:\n");
        let ds = collect_descriptions(&self.actions);
        push_blocks(&mut buf, &ds, self.settings.explain);
        buf.append("\n");
        assert(buf@ =~= self.spec_description());
        buf
    }
}

} // verus!
