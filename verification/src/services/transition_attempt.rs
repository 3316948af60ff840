//! One transaction that moves a payment through one lifecycle transition.
//!
//! The payment is read under a row lock; the transition is written only when
//! the lifecycle allows it, and only if the stored status is still the one
//! that was read. The caller performs each action and hands its result back
//! as the next event; dropping the transaction without a commit rolls it back.

use vstd::prelude::*;

use crate::errors::DatabaseFailure;
use crate::models::payment::{transition_allowed, Payment, PaymentStatus};
use crate::services::payment_service::TransitionError;

verus! {

/// Where a transition transaction stands: the action last requested.
#[derive(Debug)]
pub enum TransitionStage {
    Start,
    Beginning,
    Isolating,
    Loading,
    Updating { current: PaymentStatus },
    Committing { payment: Payment },
    Finished,
}

/// The result of the last action, handed back by the caller.
#[derive(Debug)]
pub enum TransitionEvent {
    Started,
    /// Beginning the transaction, setting its isolation, or committing.
    Completed(Result<(), DatabaseFailure>),
    /// The payment, read under a row lock.
    Loaded(Result<Option<Payment>, DatabaseFailure>),
    /// The updated payment, or `None` where its status was no longer the
    /// expected one.
    Updated(Result<Option<Payment>, DatabaseFailure>),
}

/// What the caller must do next.
#[derive(Debug)]
pub enum TransitionAction {
    BeginTransaction,
    /// `SET TRANSACTION ISOLATION LEVEL SERIALIZABLE`.
    SetSerializable,
    /// Read payment `payment_id` and lock it for the transaction.
    FindForUpdate { payment_id: u128 },
    /// Set the status of payment `payment_id` to `next` where it is still `expected`.
    UpdateStatus { payment_id: u128, expected: PaymentStatus, next: PaymentStatus },
    Commit,
    /// The transaction is over; drop it without committing if it is still open.
    Finish(Result<Payment, TransitionError>),
}

/// The state of a transition transaction as the specification sees it.
pub struct TransitionView {
    pub payment_id: u128,
    pub requested: PaymentStatus,
    pub stage: TransitionStage,
}

/// One transaction that moves a payment to a requested status.
#[derive(Debug)]
pub struct TransitionAttempt {
    payment_id: u128,
    requested: PaymentStatus,
    stage: TransitionStage,
}

impl View for TransitionAttempt {
    type V = TransitionView;

    closed spec fn view(&self) -> TransitionView {
        TransitionView {
            payment_id: self.payment_id,
            requested: self.requested,
            stage: self.stage,
        }
    }
}

/// Which events each stage accepts.
pub open spec fn transition_accepts(stage: TransitionStage, event: TransitionEvent) -> bool {
    match stage {
        TransitionStage::Start => event is Started,
        TransitionStage::Beginning => event is Completed,
        TransitionStage::Isolating => event is Completed,
        TransitionStage::Loading => event is Loaded,
        TransitionStage::Updating { .. } => event is Updated,
        TransitionStage::Committing { .. } => event is Completed,
        TransitionStage::Finished => false,
    }
}

/// How far along a transaction is; every step moves it strictly forward.
pub open spec fn transition_rank(stage: TransitionStage) -> int {
    match stage {
        TransitionStage::Start => 0,
        TransitionStage::Beginning => 1,
        TransitionStage::Isolating => 2,
        TransitionStage::Loading => 3,
        TransitionStage::Updating { .. } => 4,
        TransitionStage::Committing { .. } => 5,
        TransitionStage::Finished => 6,
    }
}

/// `post` is `pre` moved to `stage`.
pub open spec fn transition_moved(pre: TransitionView, post: TransitionView, stage: TransitionStage) -> bool {
    post == TransitionView { stage, ..pre }
}

/// `post` is `pre` finished, answering `outcome`.
pub open spec fn transition_finishes(
    pre: TransitionView,
    post: TransitionView,
    action: TransitionAction,
    outcome: Result<Payment, TransitionError>,
) -> bool {
    transition_moved(pre, post, TransitionStage::Finished) && action == TransitionAction::Finish(
        outcome,
    )
}

/// One step of a transition transaction: from `pre`, the event gives `post`
/// and `action`.
pub open spec fn transition_step(
    pre: TransitionView,
    event: TransitionEvent,
    post: TransitionView,
    action: TransitionAction,
) -> bool {
    &&& transition_accepts(pre.stage, event)
    &&& match (pre.stage, event) {
        (TransitionStage::Start, TransitionEvent::Started) => transition_moved(
            pre,
            post,
            TransitionStage::Beginning,
        ) && action == TransitionAction::BeginTransaction,
        (TransitionStage::Beginning, TransitionEvent::Completed(Ok(()))) => transition_moved(
            pre,
            post,
            TransitionStage::Isolating,
        ) && action == TransitionAction::SetSerializable,
        (TransitionStage::Isolating, TransitionEvent::Completed(Ok(()))) => transition_moved(
            pre,
            post,
            TransitionStage::Loading,
        ) && action == TransitionAction::FindForUpdate { payment_id: pre.payment_id },
        (TransitionStage::Loading, TransitionEvent::Loaded(Ok(None))) => transition_finishes(
            pre,
            post,
            action,
            Err(TransitionError::PaymentNotFound),
        ),
        (TransitionStage::Loading, TransitionEvent::Loaded(Ok(Some(current)))) => if transition_allowed(
            current.status,
            pre.requested,
        ) {
            &&& transition_moved(pre, post, TransitionStage::Updating { current: current.status })
            &&& action == TransitionAction::UpdateStatus {
                payment_id: pre.payment_id,
                expected: current.status,
                next: pre.requested,
            }
        } else {
            transition_finishes(
                pre,
                post,
                action,
                Err(
                    TransitionError::InvalidTransition {
                        current: current.status,
                        requested: pre.requested,
                    },
                ),
            )
        },
        (TransitionStage::Updating { .. }, TransitionEvent::Updated(Ok(None))) => transition_finishes(
            pre,
            post,
            action,
            Err(TransitionError::ConcurrentStateChange),
        ),
        (TransitionStage::Updating { .. }, TransitionEvent::Updated(Ok(Some(payment)))) => transition_moved(
            pre,
            post,
            TransitionStage::Committing { payment },
        ) && action == TransitionAction::Commit,
        (TransitionStage::Committing { payment }, TransitionEvent::Completed(Ok(()))) => transition_finishes(
            pre,
            post,
            action,
            Ok(payment),
        ),
        (_, TransitionEvent::Completed(Err(failure))) => transition_finishes(
            pre,
            post,
            action,
            Err(TransitionError::Database(failure)),
        ),
        (_, TransitionEvent::Loaded(Err(failure))) => transition_finishes(
            pre,
            post,
            action,
            Err(TransitionError::Database(failure)),
        ),
        (_, TransitionEvent::Updated(Err(failure))) => transition_finishes(
            pre,
            post,
            action,
            Err(TransitionError::Database(failure)),
        ),
        _ => false,
    }
}

/// `states`, `events` and `actions` form a run of a transition transaction.
pub open spec fn is_transition_run(
    states: Seq<TransitionView>,
    events: Seq<TransitionEvent>,
    actions: Seq<TransitionAction>,
) -> bool {
    &&& states.len() == events.len() + 1
    &&& actions.len() == events.len()
    &&& forall|i: int|
        0 <= i < events.len() ==> transition_step(
            states[i],
            #[trigger] events[i],
            states[i + 1],
            actions[i],
        )
}

/// Every step moves a transaction strictly forward and keeps the payment
/// and the requested status.
pub proof fn lemma_transition_step_progress(
    pre: TransitionView,
    event: TransitionEvent,
    post: TransitionView,
    action: TransitionAction,
)
    requires
        transition_step(pre, event, post, action),
    ensures
        transition_rank(pre.stage) < transition_rank(post.stage),
        post.payment_id == pre.payment_id,
        post.requested == pre.requested,
{
}

/// A status is written only for the payment of the transaction, from the
/// status just read under the row lock, to the requested status, and only
/// where the lifecycle allows that transition.
pub proof fn lemma_writes_only_allowed_transitions(
    pre: TransitionView,
    event: TransitionEvent,
    post: TransitionView,
    action: TransitionAction,
)
    requires
        transition_step(pre, event, post, action),
        action is UpdateStatus,
    ensures
        pre.stage is Loading,
        event matches TransitionEvent::Loaded(Ok(Some(current)))
            && action == (TransitionAction::UpdateStatus {
            payment_id: pre.payment_id,
            expected: current.status,
            next: pre.requested,
        }),
        transition_allowed(action->expected, action->next),
{
}

/// A transaction answers with a payment only after writing an allowed
/// transition of the payment it read and committing: the answer is the
/// payment as the guarded update returned it.
pub proof fn lemma_transition_success_is_committed(
    states: Seq<TransitionView>,
    events: Seq<TransitionEvent>,
    actions: Seq<TransitionAction>,
    i: int,
)
    requires
        is_transition_run(states, events, actions),
        states[0].stage is Start,
        0 <= i < actions.len(),
        actions[i] matches TransitionAction::Finish(Ok(_)),
    ensures
        i >= 2,
        events[i] matches TransitionEvent::Completed(Ok(_)),
        events[i - 1] == TransitionEvent::Updated(Ok(Some(actions[i]->Finish_0->Ok_0))),
        actions[i - 2] matches TransitionAction::UpdateStatus { payment_id, expected, next }
            && payment_id == states[0].payment_id && next == states[0].requested
            && transition_allowed(expected, next),
    decreases i,
{
    let _ = events[i];
    let _ = events[0];
    let _ = events[i - 1];
    assert(states[i - 1].stage is Updating);
    let _ = events[i - 2];
    assert(states[i - 2].stage is Loading);
    lemma_transition_step_progress(states[i - 2], events[i - 2], states[i - 1], actions[i - 2]);
    lemma_transition_keeps_request(states, events, actions, i - 2);
}

/// Along a run, every state keeps the payment and the requested status of
/// the first.
pub proof fn lemma_transition_keeps_request(
    states: Seq<TransitionView>,
    events: Seq<TransitionEvent>,
    actions: Seq<TransitionAction>,
    j: int,
)
    requires
        is_transition_run(states, events, actions),
        0 <= j < states.len(),
    ensures
        states[j].payment_id == states[0].payment_id,
        states[j].requested == states[0].requested,
    decreases j,
{
    if j > 0 {
        let _ = events[j - 1];
        lemma_transition_step_progress(states[j - 1], events[j - 1], states[j], actions[j - 1]);
        lemma_transition_keeps_request(states, events, actions, j - 1);
    }
}

/// Each failure names its cause: a payment is reported missing only when
/// the locked read found no row, a concurrent change only when the guarded
/// update matched no row, an invalid transition only for the status just
/// read and the status requested when the lifecycle forbids that move, and
/// every failed statement finishes with that very database failure.
pub proof fn lemma_transition_failures_name_their_cause(
    pre: TransitionView,
    event: TransitionEvent,
    post: TransitionView,
    action: TransitionAction,
)
    requires
        transition_step(pre, event, post, action),
    ensures
        action == TransitionAction::Finish(Err(TransitionError::PaymentNotFound))
            ==> event == TransitionEvent::Loaded(Ok(None)),
        action == TransitionAction::Finish(Err(TransitionError::ConcurrentStateChange))
            ==> event == TransitionEvent::Updated(Ok(None)),
        action matches TransitionAction::Finish(
            Err(TransitionError::InvalidTransition { current, requested }),
        ) ==> (event matches TransitionEvent::Loaded(Ok(Some(read))) && read.status == current
            && requested == pre.requested && !transition_allowed(current, requested)),
        action matches TransitionAction::Finish(Err(TransitionError::Database(failure))) ==> (
        event == TransitionEvent::Completed(Err(failure)) || event == TransitionEvent::Loaded(
            Err(failure),
        ) || event == TransitionEvent::Updated(Err(failure))),
        event matches TransitionEvent::Completed(Err(failure)) ==> action
            == TransitionAction::Finish(Err(TransitionError::Database(failure))),
        event matches TransitionEvent::Loaded(Err(failure)) ==> action == TransitionAction::Finish(
            Err(TransitionError::Database(failure)),
        ),
        event matches TransitionEvent::Updated(Err(failure)) ==> action
            == TransitionAction::Finish(Err(TransitionError::Database(failure))),
        event matches TransitionEvent::Loaded(Ok(Some(read))) ==> (transition_allowed(
            read.status,
            pre.requested,
        ) ==> action == (TransitionAction::UpdateStatus {
            payment_id: pre.payment_id,
            expected: read.status,
            next: pre.requested,
        })),
        event matches TransitionEvent::Updated(Ok(Some(updated))) ==> (action
            == TransitionAction::Commit && post.stage == (TransitionStage::Committing {
            payment: updated,
        })),
{
}

/// A transition the lifecycle forbids is refused without writing: when the
/// payment read has a status that cannot move to the requested one, the
/// transaction answers the invalid transition and issues no update.
pub proof fn lemma_forbidden_transition_is_refused(
    states: Seq<TransitionView>,
    events: Seq<TransitionEvent>,
    actions: Seq<TransitionAction>,
    current: Payment,
)
    requires
        is_transition_run(states, events, actions),
        states[0].stage is Start,
        events.len() == 4,
        events[3] == TransitionEvent::Loaded(Ok(Some(current))),
        !transition_allowed(current.status, states[0].requested),
    ensures
        actions[3] == TransitionAction::Finish(
            Err(
                TransitionError::InvalidTransition {
                    current: current.status,
                    requested: states[0].requested,
                },
            ),
        ),
        forall|i: int| 0 <= i < actions.len() ==> !(#[trigger] actions[i] is UpdateStatus),
{
    let _ = events[0];
    let _ = events[1];
    let _ = events[2];
    let _ = events[3];
    lemma_transition_keeps_request(states, events, actions, 3);
}

/// An allowed transition is written and answered: when the payment read may
/// move to the requested status and the guarded update and the commit
/// succeed, the transaction writes exactly that transition and answers the
/// payment the update returned.
pub proof fn lemma_allowed_transition_commits(
    states: Seq<TransitionView>,
    events: Seq<TransitionEvent>,
    actions: Seq<TransitionAction>,
    current: Payment,
    updated: Payment,
)
    requires
        is_transition_run(states, events, actions),
        states[0].stage is Start,
        events.len() == 6,
        events[1] matches TransitionEvent::Completed(Ok(_)),
        events[2] matches TransitionEvent::Completed(Ok(_)),
        events[3] == TransitionEvent::Loaded(Ok(Some(current))),
        transition_allowed(current.status, states[0].requested),
        events[4] == TransitionEvent::Updated(Ok(Some(updated))),
        events[5] matches TransitionEvent::Completed(Ok(_)),
    ensures
        actions[2] == (TransitionAction::FindForUpdate { payment_id: states[0].payment_id }),
        actions[3] == (TransitionAction::UpdateStatus {
            payment_id: states[0].payment_id,
            expected: current.status,
            next: states[0].requested,
        }),
        actions[5] == TransitionAction::Finish(Ok(updated)),
{
    let _ = events[0];
    let _ = events[1];
    let _ = events[2];
    let _ = events[3];
    let _ = events[4];
    let _ = events[5];
    lemma_transition_keeps_request(states, events, actions, 3);
    lemma_transition_keeps_request(states, events, actions, 2);
}

impl TransitionAttempt {
    /// A fresh transaction that moves payment `payment_id` to `requested`.
    pub fn new(payment_id: u128, requested: PaymentStatus) -> (attempt: TransitionAttempt)
        ensures
            attempt@ == (TransitionView { payment_id, requested, stage: TransitionStage::Start }),
    {
        TransitionAttempt { payment_id, requested, stage: TransitionStage::Start }
    }

    /// Whether `event` is the kind of result that the last action gives.
    pub fn accepts(&self, event: &TransitionEvent) -> (accepted: bool)
        ensures
            accepted == transition_accepts(self@.stage, *event),
    {
        match (&self.stage, event) {
            (TransitionStage::Start, TransitionEvent::Started) => true,
            (TransitionStage::Beginning, TransitionEvent::Completed(_)) => true,
            (TransitionStage::Isolating, TransitionEvent::Completed(_)) => true,
            (TransitionStage::Loading, TransitionEvent::Loaded(_)) => true,
            (TransitionStage::Updating { .. }, TransitionEvent::Updated(_)) => true,
            (TransitionStage::Committing { .. }, TransitionEvent::Completed(_)) => true,
            _ => false,
        }
    }

    fn finish(&mut self, outcome: Result<Payment, TransitionError>) -> (action: TransitionAction)
        ensures
            transition_finishes(old(self)@, final(self)@, action, outcome),
    {
        self.stage = TransitionStage::Finished;
        TransitionAction::Finish(outcome)
    }

    /// Takes the result of the last action and gives the next one.
    pub fn step(&mut self, event: TransitionEvent) -> (action: TransitionAction)
        requires
            transition_accepts(old(self)@.stage, event),
        ensures
            transition_step(old(self)@, event, final(self)@, action),
    {
        let mut stage = TransitionStage::Finished;
        std::mem::swap(&mut stage, &mut self.stage);
        match (stage, event) {
            (TransitionStage::Start, _) => {
                self.stage = TransitionStage::Beginning;
                TransitionAction::BeginTransaction
            },
            (_, TransitionEvent::Completed(Err(failure))) => self.finish(
                Err(TransitionError::Database(failure)),
            ),
            (_, TransitionEvent::Loaded(Err(failure))) => self.finish(
                Err(TransitionError::Database(failure)),
            ),
            (_, TransitionEvent::Updated(Err(failure))) => self.finish(
                Err(TransitionError::Database(failure)),
            ),
            (TransitionStage::Beginning, _) => {
                self.stage = TransitionStage::Isolating;
                TransitionAction::SetSerializable
            },
            (TransitionStage::Isolating, _) => {
                self.stage = TransitionStage::Loading;
                TransitionAction::FindForUpdate { payment_id: self.payment_id }
            },
            (TransitionStage::Loading, TransitionEvent::Loaded(Ok(Some(current)))) => {
                if current.status.can_transition_to(self.requested) {
                    self.stage = TransitionStage::Updating { current: current.status };
                    TransitionAction::UpdateStatus {
                        payment_id: self.payment_id,
                        expected: current.status,
                        next: self.requested,
                    }
                } else {
                    self.finish(
                        Err(
                            TransitionError::InvalidTransition {
                                current: current.status,
                                requested: self.requested,
                            },
                        ),
                    )
                }
            },
            (TransitionStage::Loading, _) => self.finish(Err(TransitionError::PaymentNotFound)),
            (TransitionStage::Updating { .. }, TransitionEvent::Updated(Ok(Some(payment)))) => {
                self.stage = TransitionStage::Committing { payment };
                TransitionAction::Commit
            },
            (TransitionStage::Updating { .. }, _) => self.finish(
                Err(TransitionError::ConcurrentStateChange),
            ),
            (TransitionStage::Committing { payment }, _) => self.finish(Ok(payment)),
            (TransitionStage::Finished, _) => TransitionAction::Finish(
                Err(TransitionError::PaymentNotFound),
            ),
        }
    }
}

} // verus!
