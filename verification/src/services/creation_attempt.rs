//! One transaction that creates a payment under an idempotency key, or
//! finds the response already stored for that key.
//!
//! The transaction claims the key by inserting its record; only the request
//! that claimed the key inserts a payment, and it stores the response to
//! replay before committing. A request that finds the key claimed replays
//! the stored response, provided it is the same request. The caller
//! performs each action and hands its result back as the next event;
//! dropping the transaction without a commit rolls it back.

use vstd::prelude::*;

use crate::errors::DatabaseFailure;
use crate::ids::{is_random_uuid, FreshId};
use crate::models::payment::{NewPayment, Payment};
use crate::repositories::idempotency_repository::IdempotencyRecord;
use crate::services::payment_service::{
    replayed_result, stored_response, IdempotentCreationError, PaymentCreationResult,
    CREATED_STATUS_CODE,
};
use crate::text::str_eq;

verus! {

/// Where a creation transaction stands: the action last requested.
#[derive(Debug)]
pub enum CreationStage {
    Start,
    Beginning,
    Isolating,
    ClearingExpired,
    Claiming,
    LoadingExisting,
    DecodingExisting { status_code: i16 },
    CommittingReplay { result: PaymentCreationResult },
    Inserting,
    Storing { payment: Payment },
    CommittingCreated { payment: Payment },
    Finished,
}

/// Why storing the response for a claimed key failed.
#[derive(Debug)]
pub enum StoreFailure {
    /// The payment could not be encoded as JSON.
    Encode,
    Database(DatabaseFailure),
}

/// The result of the last action, handed back by the caller.
#[derive(Debug)]
pub enum CreationEvent {
    Started,
    /// Beginning the transaction, setting its isolation, deleting the
    /// expired record, or committing.
    Completed(Result<(), DatabaseFailure>),
    /// Whether the insert of the key's record claimed the key.
    Claimed(Result<bool, DatabaseFailure>),
    /// The key's record, read under a row lock.
    Loaded(Result<Option<IdempotencyRecord>, DatabaseFailure>),
    /// The stored body as a payment, or `None` where it does not decode.
    Decoded(Option<Payment>),
    /// The payment as the database stored it.
    Inserted(Result<Payment, DatabaseFailure>),
    Stored(Result<(), StoreFailure>),
}

/// What the caller must do next.
#[derive(Debug)]
pub enum CreationAction {
    BeginTransaction,
    /// `SET TRANSACTION ISOLATION LEVEL SERIALIZABLE`.
    SetSerializable,
    /// Delete the record of `key` if it has expired.
    DeleteExpired { key: String },
    /// Insert the record `record_id` for `key`, unless the key exists, with
    /// `request_hash` and an expiry `ttl_secs` seconds from now.
    TryInsert { record_id: u128, key: String, request_hash: String, ttl_secs: u64 },
    /// Read the record of `key` and lock it for the transaction.
    FindForUpdate { key: String },
    /// Decode `body` as the JSON of a payment.
    Decode { body: String },
    InsertPayment { payment: NewPayment },
    /// Store `payment`, encoded as JSON, and `status_code` in the record of `key`.
    StoreResponse { key: String, payment: Payment, status_code: i16 },
    Commit,
    /// The transaction is over; drop it without committing if it is still open.
    Finish(Result<PaymentCreationResult, IdempotentCreationError>),
}

/// The state of a creation transaction as the specification sees it.
pub struct CreationView {
    pub key: Seq<char>,
    pub request_hash: Seq<char>,
    pub new_payment: NewPayment,
    pub ttl_secs: u64,
    pub record_id: u128,
    pub stage: CreationStage,
}

/// One creation transaction under an idempotency key.
#[derive(Debug)]
pub struct CreationAttempt {
    key: String,
    request_hash: String,
    new_payment: NewPayment,
    ttl_secs: u64,
    record_id: FreshId,
    stage: CreationStage,
}

impl View for CreationAttempt {
    type V = CreationView;

    closed spec fn view(&self) -> CreationView {
        CreationView {
            key: self.key@,
            request_hash: self.request_hash@,
            new_payment: self.new_payment,
            ttl_secs: self.ttl_secs,
            record_id: self.record_id.value(),
            stage: self.stage,
        }
    }
}

/// Which events each stage accepts.
pub open spec fn creation_accepts(stage: CreationStage, event: CreationEvent) -> bool {
    match stage {
        CreationStage::Start => event is Started,
        CreationStage::Beginning => event is Completed,
        CreationStage::Isolating => event is Completed,
        CreationStage::ClearingExpired => event is Completed,
        CreationStage::Claiming => event is Claimed,
        CreationStage::LoadingExisting => event is Loaded,
        CreationStage::DecodingExisting { .. } => event is Decoded,
        CreationStage::CommittingReplay { .. } => event is Completed,
        CreationStage::Inserting => event is Inserted,
        CreationStage::Storing { .. } => event is Stored,
        CreationStage::CommittingCreated { .. } => event is Completed,
        CreationStage::Finished => false,
    }
}

/// How far along a transaction is; every step moves it strictly forward.
pub open spec fn creation_rank(stage: CreationStage) -> int {
    match stage {
        CreationStage::Start => 0,
        CreationStage::Beginning => 1,
        CreationStage::Isolating => 2,
        CreationStage::ClearingExpired => 3,
        CreationStage::Claiming => 4,
        CreationStage::LoadingExisting => 5,
        CreationStage::DecodingExisting { .. } => 6,
        CreationStage::CommittingReplay { .. } => 7,
        CreationStage::Inserting => 5,
        CreationStage::Storing { .. } => 6,
        CreationStage::CommittingCreated { .. } => 7,
        CreationStage::Finished => 8,
    }
}

/// `post` is `pre` moved to `stage`.
pub open spec fn creation_moved(pre: CreationView, post: CreationView, stage: CreationStage) -> bool {
    post == CreationView { stage, ..pre }
}

/// `post` is `pre` finished, answering `outcome`.
pub open spec fn creation_finishes(
    pre: CreationView,
    post: CreationView,
    action: CreationAction,
    outcome: Result<PaymentCreationResult, IdempotentCreationError>,
) -> bool {
    creation_moved(pre, post, CreationStage::Finished) && action == CreationAction::Finish(outcome)
}

/// `post` is `pre` finished with the conflict `message`.
pub open spec fn creation_conflicts(
    pre: CreationView,
    post: CreationView,
    action: CreationAction,
    message: Seq<char>,
) -> bool {
    &&& creation_moved(pre, post, CreationStage::Finished)
    &&& action matches CreationAction::Finish(Err(IdempotentCreationError::Conflict(m)))
    &&& m@ == message
}

/// A database step that either fails the transaction or moves it to `next`
/// with `next_action`.
pub open spec fn creation_db_step(
    pre: CreationView,
    result: Result<(), DatabaseFailure>,
    post: CreationView,
    action: CreationAction,
    next: CreationStage,
    next_action: CreationAction,
) -> bool {
    match result {
        Err(failure) => creation_finishes(
            pre,
            post,
            action,
            Err(IdempotentCreationError::Database(failure)),
        ),
        Ok(()) => creation_moved(pre, post, next) && action == next_action,
    }
}

pub open spec fn key_removed_message() -> Seq<char> {
    "idempotency key was removed while being processed; retry the request"@
}

pub open spec fn key_reused_message() -> Seq<char> {
    "idempotency key was already used with a different request"@
}

pub open spec fn key_in_progress_message() -> Seq<char> {
    "an identical payment request is currently being processed"@
}

/// One step of a creation transaction: from `pre`, the event gives `post`
/// and `action`.
pub open spec fn creation_step(
    pre: CreationView,
    event: CreationEvent,
    post: CreationView,
    action: CreationAction,
) -> bool {
    &&& creation_accepts(pre.stage, event)
    &&& match pre.stage {
        CreationStage::Start => creation_moved(pre, post, CreationStage::Beginning) && action
            == CreationAction::BeginTransaction,
        CreationStage::Beginning => match event {
            CreationEvent::Completed(result) => creation_db_step(
                pre,
                result,
                post,
                action,
                CreationStage::Isolating,
                CreationAction::SetSerializable,
            ),
            _ => false,
        },
        CreationStage::Isolating => match event {
            CreationEvent::Completed(Err(failure)) => creation_finishes(
                pre,
                post,
                action,
                Err(IdempotentCreationError::Database(failure)),
            ),
            CreationEvent::Completed(Ok(())) => {
                &&& creation_moved(pre, post, CreationStage::ClearingExpired)
                &&& action matches CreationAction::DeleteExpired { key } && key@ == pre.key
            },
            _ => false,
        },
        CreationStage::ClearingExpired => match event {
            CreationEvent::Completed(Err(failure)) => creation_finishes(
                pre,
                post,
                action,
                Err(IdempotentCreationError::Database(failure)),
            ),
            CreationEvent::Completed(Ok(())) => {
                &&& creation_moved(pre, post, CreationStage::Claiming)
                &&& action matches CreationAction::TryInsert {
                    record_id,
                    key,
                    request_hash,
                    ttl_secs,
                }
                &&& record_id == pre.record_id
                &&& key@ == pre.key
                &&& request_hash@ == pre.request_hash
                &&& ttl_secs == pre.ttl_secs
            },
            _ => false,
        },
        CreationStage::Claiming => match event {
            CreationEvent::Claimed(Err(failure)) => creation_finishes(
                pre,
                post,
                action,
                Err(IdempotentCreationError::Database(failure)),
            ),
            CreationEvent::Claimed(Ok(true)) => creation_moved(pre, post, CreationStage::Inserting)
                && action == CreationAction::InsertPayment { payment: pre.new_payment },
            CreationEvent::Claimed(Ok(false)) => {
                &&& creation_moved(pre, post, CreationStage::LoadingExisting)
                &&& action matches CreationAction::FindForUpdate { key } && key@ == pre.key
            },
            _ => false,
        },
        CreationStage::LoadingExisting => match event {
            CreationEvent::Loaded(Err(failure)) => creation_finishes(
                pre,
                post,
                action,
                Err(IdempotentCreationError::Database(failure)),
            ),
            CreationEvent::Loaded(Ok(None)) => creation_conflicts(
                pre,
                post,
                action,
                key_removed_message(),
            ),
            CreationEvent::Loaded(Ok(Some(record))) => if record.request_hash@ != pre.request_hash {
                creation_conflicts(pre, post, action, key_reused_message())
            } else {
                match record.response_body {
                    None => creation_conflicts(pre, post, action, key_in_progress_message()),
                    Some(body) => match record.status_code {
                        None => creation_finishes(
                            pre,
                            post,
                            action,
                            Err(IdempotentCreationError::InvalidStoredResponse),
                        ),
                        Some(code) => creation_moved(
                            pre,
                            post,
                            CreationStage::DecodingExisting { status_code: code },
                        ) && action == CreationAction::Decode { body },
                    },
                }
            },
            _ => false,
        },
        CreationStage::DecodingExisting { status_code } => match event {
            CreationEvent::Decoded(Some(payment)) => {
                let result = PaymentCreationResult { payment, status_code: status_code as u16 };
                creation_moved(pre, post, CreationStage::CommittingReplay { result }) && action
                    == CreationAction::Commit
            },
            CreationEvent::Decoded(None) => creation_finishes(
                pre,
                post,
                action,
                Err(IdempotentCreationError::InvalidStoredResponse),
            ),
            _ => false,
        },
        CreationStage::CommittingReplay { result } => match event {
            CreationEvent::Completed(Err(failure)) => creation_finishes(
                pre,
                post,
                action,
                Err(IdempotentCreationError::Database(failure)),
            ),
            CreationEvent::Completed(Ok(())) => creation_finishes(pre, post, action, Ok(result)),
            _ => false,
        },
        CreationStage::Inserting => match event {
            CreationEvent::Inserted(Err(failure)) => creation_finishes(
                pre,
                post,
                action,
                Err(IdempotentCreationError::Database(failure)),
            ),
            CreationEvent::Inserted(Ok(payment)) => {
                &&& creation_moved(pre, post, CreationStage::Storing { payment })
                &&& action matches CreationAction::StoreResponse { key, payment: stored, status_code }
                &&& key@ == pre.key
                &&& stored == payment
                &&& status_code == CREATED_STATUS_CODE
            },
            _ => false,
        },
        CreationStage::Storing { payment } => match event {
            CreationEvent::Stored(Err(StoreFailure::Encode)) => creation_finishes(
                pre,
                post,
                action,
                Err(IdempotentCreationError::InvalidStoredResponse),
            ),
            CreationEvent::Stored(Err(StoreFailure::Database(failure))) => creation_finishes(
                pre,
                post,
                action,
                Err(IdempotentCreationError::Database(failure)),
            ),
            CreationEvent::Stored(Ok(())) => creation_moved(
                pre,
                post,
                CreationStage::CommittingCreated { payment },
            ) && action == CreationAction::Commit,
            _ => false,
        },
        CreationStage::CommittingCreated { payment } => match event {
            CreationEvent::Completed(Err(failure)) => creation_finishes(
                pre,
                post,
                action,
                Err(IdempotentCreationError::Database(failure)),
            ),
            CreationEvent::Completed(Ok(())) => creation_finishes(
                pre,
                post,
                action,
                Ok(PaymentCreationResult { payment, status_code: CREATED_STATUS_CODE as u16 }),
            ),
            _ => false,
        },
        CreationStage::Finished => false,
    }
}

/// Each failure names its cause: every failed statement finishes with that
/// very database failure; a conflict comes only from the key's record (gone,
/// made by another request, or still without a response); an invalid stored
/// response only from a payment that could not be encoded, a stored record
/// without a status code, or a stored body that did not decode. Claiming the
/// key leads to inserting the payment; finding it claimed leads to reading
/// its record.
pub proof fn lemma_creation_failures_name_their_cause(
    pre: CreationView,
    event: CreationEvent,
    post: CreationView,
    action: CreationAction,
)
    requires
        creation_step(pre, event, post, action),
    ensures
        event matches CreationEvent::Completed(Err(failure)) ==> action == CreationAction::Finish(
            Err(IdempotentCreationError::Database(failure)),
        ),
        event matches CreationEvent::Claimed(Err(failure)) ==> action == CreationAction::Finish(
            Err(IdempotentCreationError::Database(failure)),
        ),
        event matches CreationEvent::Loaded(Err(failure)) ==> action == CreationAction::Finish(
            Err(IdempotentCreationError::Database(failure)),
        ),
        event matches CreationEvent::Inserted(Err(failure)) ==> action == CreationAction::Finish(
            Err(IdempotentCreationError::Database(failure)),
        ),
        event matches CreationEvent::Stored(Err(StoreFailure::Database(failure))) ==> action
            == CreationAction::Finish(Err(IdempotentCreationError::Database(failure))),
        event matches CreationEvent::Stored(Err(StoreFailure::Encode)) ==> action
            == CreationAction::Finish(Err(IdempotentCreationError::InvalidStoredResponse)),
        action matches CreationAction::Finish(Err(IdempotentCreationError::Database(failure)))
            ==> (event == CreationEvent::Completed(Err(failure)) || event
            == CreationEvent::Claimed(Err(failure)) || event == CreationEvent::Loaded(Err(failure))
            || event == CreationEvent::Inserted(Err(failure)) || event == CreationEvent::Stored(
            Err(StoreFailure::Database(failure)),
        )),
        action matches CreationAction::Finish(Err(IdempotentCreationError::Conflict(message))) ==> (
        event matches CreationEvent::Loaded(Ok(found)) && (match found {
            None => message@ == key_removed_message(),
            Some(record) => if record.request_hash@ != pre.request_hash {
                message@ == key_reused_message()
            } else {
                record.response_body is None && message@ == key_in_progress_message()
            },
        })),
        action == CreationAction::Finish(Err(IdempotentCreationError::InvalidStoredResponse)) ==> (
        event == CreationEvent::Stored(Err(StoreFailure::Encode)) || event
            == CreationEvent::Decoded(None) || (event matches CreationEvent::Loaded(
            Ok(Some(record)),
        ) && record.request_hash@ == pre.request_hash && record.response_body is Some
            && record.status_code is None)),
        event == CreationEvent::Claimed(Ok(true)) ==> action == (CreationAction::InsertPayment {
            payment: pre.new_payment,
        }),
        event == CreationEvent::Claimed(Ok(false)) ==> (action matches CreationAction::FindForUpdate {
            key,
        } && key@ == pre.key),
{
}

/// `states`, `events` and `actions` form a run of a creation transaction:
/// event `i` takes state `i` to state `i + 1` and gives action `i`.
pub open spec fn is_creation_run(
    states: Seq<CreationView>,
    events: Seq<CreationEvent>,
    actions: Seq<CreationAction>,
) -> bool {
    &&& states.len() == events.len() + 1
    &&& actions.len() == events.len()
    &&& forall|i: int|
        0 <= i < events.len() ==> creation_step(states[i], #[trigger] events[i], states[i + 1], actions[i])
}

/// Every step moves a transaction strictly forward and keeps what it was
/// created with.
pub proof fn lemma_creation_step_progress(
    pre: CreationView,
    event: CreationEvent,
    post: CreationView,
    action: CreationAction,
)
    requires
        creation_step(pre, event, post, action),
    ensures
        creation_rank(pre.stage) < creation_rank(post.stage),
        post.key == pre.key,
        post.request_hash == pre.request_hash,
        post.new_payment == pre.new_payment,
        post.ttl_secs == pre.ttl_secs,
        post.record_id == pre.record_id,
{
}

/// Along a run, later states are further along and keep what the
/// transaction was created with.
pub proof fn lemma_creation_run_progress(
    states: Seq<CreationView>,
    events: Seq<CreationEvent>,
    actions: Seq<CreationAction>,
    i: int,
    j: int,
)
    requires
        is_creation_run(states, events, actions),
        0 <= i < j < states.len(),
    ensures
        creation_rank(states[i].stage) + (j - i) <= creation_rank(states[j].stage),
        states[j].key == states[i].key,
        states[j].request_hash == states[i].request_hash,
        states[j].new_payment == states[i].new_payment,
    decreases j - i,
{
    let _ = events[j - 1];
    lemma_creation_step_progress(states[j - 1], events[j - 1], states[j], actions[j - 1]);
    if i < j - 1 {
        lemma_creation_run_progress(states, events, actions, i, j - 1);
    }
}

/// A transaction ends after at most eight events: its last state accepts
/// no event.
pub proof fn lemma_creation_run_is_short(
    states: Seq<CreationView>,
    events: Seq<CreationEvent>,
    actions: Seq<CreationAction>,
)
    requires
        is_creation_run(states, events, actions),
    ensures
        events.len() <= 8,
{
    if events.len() > 8 {
        lemma_creation_run_progress(states, events, actions, 0, 9);
    }
}

/// A payment is inserted only by the step that learns the key was just
/// claimed by this transaction, and it is the payment the transaction was
/// created for.
pub proof fn lemma_insert_only_after_claim(
    states: Seq<CreationView>,
    events: Seq<CreationEvent>,
    actions: Seq<CreationAction>,
    i: int,
)
    requires
        is_creation_run(states, events, actions),
        0 <= i < actions.len(),
        actions[i] is InsertPayment,
    ensures
        states[i].stage is Claiming,
        events[i] == CreationEvent::Claimed(Ok(true)),
        actions[i] == (CreationAction::InsertPayment { payment: states[0].new_payment }),
{
    let _ = events[i];
    if i > 0 {
        lemma_creation_run_progress(states, events, actions, 0, i);
    }
}

/// Exactly once: a transaction inserts at most one payment.
pub proof fn lemma_creation_inserts_at_most_once(
    states: Seq<CreationView>,
    events: Seq<CreationEvent>,
    actions: Seq<CreationAction>,
    i: int,
    j: int,
)
    requires
        is_creation_run(states, events, actions),
        0 <= i < actions.len(),
        0 <= j < actions.len(),
        actions[i] is InsertPayment,
        actions[j] is InsertPayment,
    ensures
        i == j,
{
    lemma_insert_only_after_claim(states, events, actions, i);
    lemma_insert_only_after_claim(states, events, actions, j);
    if i < j {
        lemma_creation_run_progress(states, events, actions, i, j);
    } else if j < i {
        lemma_creation_run_progress(states, events, actions, j, i);
    }
}

/// A transaction that found the key already claimed never inserts a payment.
pub proof fn lemma_no_insert_after_existing_key(
    states: Seq<CreationView>,
    events: Seq<CreationEvent>,
    actions: Seq<CreationAction>,
    k: int,
    i: int,
)
    requires
        is_creation_run(states, events, actions),
        states[0].stage is Start,
        0 <= k < states.len(),
        states[k].stage is LoadingExisting,
        0 <= i < actions.len(),
    ensures
        !(actions[i] is InsertPayment),
{
    if actions[i] is InsertPayment {
        lemma_insert_only_after_claim(states, events, actions, i);
        assert(k > 0);
        let _ = events[k - 1];
        lemma_creation_step_progress(states[k - 1], events[k - 1], states[k], actions[k - 1]);
        assert(states[k - 1].stage is Claiming);
        assert(events[k - 1] == CreationEvent::Claimed(Ok(false)));
        if i < k - 1 {
            lemma_creation_run_progress(states, events, actions, i, k - 1);
        } else if k - 1 < i {
            lemma_creation_run_progress(states, events, actions, k - 1, i);
        }
    }
}

/// Idempotency: a transaction answers with a payment only in two ways.
/// Either it inserted that payment, as the database returned it, and stored
/// it with status 201 as the response to replay before committing; or it
/// replays the response stored in the record of its key, which was made by
/// the same request, with the stored status code.
pub proof fn lemma_created_or_replayed(
    states: Seq<CreationView>,
    events: Seq<CreationEvent>,
    actions: Seq<CreationAction>,
    i: int,
)
    requires
        is_creation_run(states, events, actions),
        states[0].stage is Start,
        0 <= i < actions.len(),
        actions[i] matches CreationAction::Finish(Ok(_)),
    ensures
        ({
            let result = actions[i]->Finish_0->Ok_0;
            ||| {
                &&& i >= 2
                &&& events[i - 2] == CreationEvent::Inserted(Ok(result.payment))
                &&& actions[i - 2] matches CreationAction::StoreResponse {
                    key,
                    payment,
                    status_code,
                }
                &&& key@ == states[0].key
                &&& payment == result.payment
                &&& status_code == CREATED_STATUS_CODE
                &&& result.status_code == CREATED_STATUS_CODE as u16
                &&& events[i] matches CreationEvent::Completed(Ok(_))
            }
            ||| {
                &&& i >= 2
                &&& events[i - 2] matches CreationEvent::Loaded(Ok(Some(record)))
                &&& record.request_hash@ == states[0].request_hash
                &&& record.response_body matches Some(body)
                &&& record.status_code matches Some(code)
                &&& result.status_code == code as u16
                &&& actions[i - 2] == CreationAction::Decode { body }
                &&& events[i - 1] == CreationEvent::Decoded(Some(result.payment))
                &&& events[i] matches CreationEvent::Completed(Ok(_))
            }
        }),
{
    let _ = events[i];
    assert(states[i].stage is CommittingCreated || states[i].stage is CommittingReplay);
    let _ = events[0];
    assert(i >= 1);
    let _ = events[i - 1];
    assert(states[i - 1].stage is Storing || states[i - 1].stage is DecodingExisting);
    assert(i >= 2);
    let _ = events[i - 2];
    if i > 2 {
        lemma_creation_run_progress(states, events, actions, 0, i - 2);
    }
    if states[i].stage is CommittingCreated {
        assert(states[i - 1].stage is Storing);
        assert(states[i - 2].stage is Inserting);
    } else {
        assert(states[i - 1].stage is DecodingExisting);
        assert(states[i - 2].stage is LoadingExisting);
    }
}

/// A retried request replays: when the key is already claimed by a record of
/// the same request whose stored response decodes to `payment`, the
/// transaction inserts nothing and answers `payment` with the stored status
/// code once it commits.
pub proof fn lemma_retry_replays_stored_payment(
    states: Seq<CreationView>,
    events: Seq<CreationEvent>,
    actions: Seq<CreationAction>,
    record: IdempotencyRecord,
    payment: Payment,
)
    requires
        is_creation_run(states, events, actions),
        states[0].stage is Start,
        events.len() == 8,
        events[4] == CreationEvent::Claimed(Ok(false)),
        events[5] == CreationEvent::Loaded(Ok(Some(record))),
        record.request_hash@ == states[0].request_hash,
        record.response_body is Some,
        record.status_code is Some,
        events[6] == CreationEvent::Decoded(Some(payment)),
        events[7] matches CreationEvent::Completed(Ok(_)),
    ensures
        actions[7] == CreationAction::Finish(
            Ok(PaymentCreationResult { payment, status_code: record.status_code->0 as u16 }),
        ),
        forall|i: int| 0 <= i < actions.len() ==> !(#[trigger] actions[i] is InsertPayment),
{
    let _ = events[0];
    let _ = events[1];
    let _ = events[2];
    let _ = events[3];
    let _ = events[4];
    lemma_creation_run_progress(states, events, actions, 0, 5);
    let _ = events[5];
    let _ = events[6];
    let _ = events[7];
    assert forall|i: int| 0 <= i < actions.len() implies !(#[trigger] actions[i] is InsertPayment) by {
        lemma_no_insert_after_existing_key(states, events, actions, 5, i);
    }
}

/// A different request under a used key is refused: when the key's record
/// was made by a request with another hash, the transaction answers a
/// conflict and inserts nothing.
pub proof fn lemma_reused_key_is_refused(
    states: Seq<CreationView>,
    events: Seq<CreationEvent>,
    actions: Seq<CreationAction>,
    record: IdempotencyRecord,
)
    requires
        is_creation_run(states, events, actions),
        states[0].stage is Start,
        events.len() == 6,
        events[4] == CreationEvent::Claimed(Ok(false)),
        events[5] == CreationEvent::Loaded(Ok(Some(record))),
        record.request_hash@ != states[0].request_hash,
    ensures
        actions[5] matches CreationAction::Finish(Err(IdempotentCreationError::Conflict(m)))
            && m@ == key_reused_message(),
        forall|i: int| 0 <= i < actions.len() ==> !(#[trigger] actions[i] is InsertPayment),
{
    let _ = events[0];
    let _ = events[1];
    let _ = events[2];
    let _ = events[3];
    let _ = events[4];
    lemma_creation_run_progress(states, events, actions, 0, 5);
    let _ = events[5];
    assert forall|i: int| 0 <= i < actions.len() implies !(#[trigger] actions[i] is InsertPayment) by {
        lemma_no_insert_after_existing_key(states, events, actions, 5, i);
    }
}

/// A first request creates: when the key is claimed and every statement
/// succeeds, the transaction inserts its payment once, stores the payment
/// the database returned with status 201, and answers it with 201.
pub proof fn lemma_first_request_creates(
    states: Seq<CreationView>,
    events: Seq<CreationEvent>,
    actions: Seq<CreationAction>,
    payment: Payment,
)
    requires
        is_creation_run(states, events, actions),
        states[0].stage is Start,
        events.len() == 8,
        forall|i: int| 1 <= i < 4 ==> #[trigger] events[i] matches CreationEvent::Completed(Ok(_)),
        events[4] == CreationEvent::Claimed(Ok(true)),
        events[5] == CreationEvent::Inserted(Ok(payment)),
        events[6] matches CreationEvent::Stored(Ok(_)),
        events[7] matches CreationEvent::Completed(Ok(_)),
    ensures
        actions[4] == (CreationAction::InsertPayment { payment: states[0].new_payment }),
        actions[5] matches CreationAction::StoreResponse { key, payment: stored, status_code }
            && key@ == states[0].key && stored == payment && status_code == CREATED_STATUS_CODE,
        actions[7] == CreationAction::Finish(
            Ok(PaymentCreationResult { payment, status_code: CREATED_STATUS_CODE as u16 }),
        ),
{
    let _ = events[0];
    let _ = events[1];
    let _ = events[2];
    let _ = events[3];
    let _ = events[4];
    lemma_creation_run_progress(states, events, actions, 0, 5);
    let _ = events[5];
    let _ = events[6];
    let _ = events[7];
}

impl CreationAttempt {
    /// A fresh transaction for `new_payment` under `key`, with a newly drawn
    /// random identifier for the key's record: the attempt holds its record
    /// identifier as a `FreshId`, which only a random draw produces.
    pub fn new(key: &str, request_hash: &str, new_payment: &NewPayment, ttl_secs: u64) -> (attempt:
        CreationAttempt)
        ensures
            attempt@.key == key@,
            attempt@.request_hash == request_hash@,
            attempt@.new_payment == *new_payment,
            attempt@.ttl_secs == ttl_secs,
            is_random_uuid(attempt@.record_id),
            attempt@.stage is Start,
    {
        CreationAttempt {
            key: key.to_owned(),
            request_hash: request_hash.to_owned(),
            new_payment: new_payment.duplicate(),
            ttl_secs,
            record_id: FreshId::draw(),
            stage: CreationStage::Start,
        }
    }

    /// Whether `event` is the kind of result that the last action gives.
    pub fn accepts(&self, event: &CreationEvent) -> (accepted: bool)
        ensures
            accepted == creation_accepts(self@.stage, *event),
    {
        match (&self.stage, event) {
            (CreationStage::Start, CreationEvent::Started) => true,
            (CreationStage::Beginning, CreationEvent::Completed(_)) => true,
            (CreationStage::Isolating, CreationEvent::Completed(_)) => true,
            (CreationStage::ClearingExpired, CreationEvent::Completed(_)) => true,
            (CreationStage::Claiming, CreationEvent::Claimed(_)) => true,
            (CreationStage::LoadingExisting, CreationEvent::Loaded(_)) => true,
            (CreationStage::DecodingExisting { .. }, CreationEvent::Decoded(_)) => true,
            (CreationStage::CommittingReplay { .. }, CreationEvent::Completed(_)) => true,
            (CreationStage::Inserting, CreationEvent::Inserted(_)) => true,
            (CreationStage::Storing { .. }, CreationEvent::Stored(_)) => true,
            (CreationStage::CommittingCreated { .. }, CreationEvent::Completed(_)) => true,
            _ => false,
        }
    }

    /// Whether the transaction is over.
    pub fn is_finished(&self) -> (finished: bool)
        ensures
            finished == (self@.stage is Finished),
    {
        match self.stage {
            CreationStage::Finished => true,
            _ => false,
        }
    }

    fn database_failure(&mut self, failure: DatabaseFailure) -> (action: CreationAction)
        ensures
            creation_finishes(
                old(self)@,
                final(self)@,
                action,
                Err(IdempotentCreationError::Database(failure)),
            ),
    {
        self.stage = CreationStage::Finished;
        CreationAction::Finish(Err(IdempotentCreationError::Database(failure)))
    }

    fn finish(&mut self, outcome: Result<PaymentCreationResult, IdempotentCreationError>) -> (action:
        CreationAction)
        ensures
            creation_finishes(old(self)@, final(self)@, action, outcome),
    {
        self.stage = CreationStage::Finished;
        CreationAction::Finish(outcome)
    }

    fn conflict(&mut self, message: &str) -> (action: CreationAction)
        ensures
            creation_conflicts(old(self)@, final(self)@, action, message@),
    {
        self.stage = CreationStage::Finished;
        CreationAction::Finish(Err(IdempotentCreationError::Conflict(message.to_owned())))
    }

    /// Takes the result of the last action and gives the next one.
    pub fn step(&mut self, event: CreationEvent) -> (action: CreationAction)
        requires
            creation_accepts(old(self)@.stage, event),
        ensures
            creation_step(old(self)@, event, final(self)@, action),
    {
        let mut stage = CreationStage::Finished;
        std::mem::swap(&mut stage, &mut self.stage);
        match stage {
            CreationStage::Start => {
                self.stage = CreationStage::Beginning;
                CreationAction::BeginTransaction
            },
            CreationStage::Beginning => match event {
                CreationEvent::Completed(Err(failure)) => self.database_failure(failure),
                _ => {
                    self.stage = CreationStage::Isolating;
                    CreationAction::SetSerializable
                },
            },
            CreationStage::Isolating => match event {
                CreationEvent::Completed(Err(failure)) => self.database_failure(failure),
                _ => {
                    self.stage = CreationStage::ClearingExpired;
                    CreationAction::DeleteExpired { key: self.key.clone() }
                },
            },
            CreationStage::ClearingExpired => match event {
                CreationEvent::Completed(Err(failure)) => self.database_failure(failure),
                _ => {
                    self.stage = CreationStage::Claiming;
                    CreationAction::TryInsert {
                        record_id: self.record_id.get(),
                        key: self.key.clone(),
                        request_hash: self.request_hash.clone(),
                        ttl_secs: self.ttl_secs,
                    }
                },
            },
            CreationStage::Claiming => match event {
                CreationEvent::Claimed(Err(failure)) => self.database_failure(failure),
                CreationEvent::Claimed(Ok(true)) => {
                    self.stage = CreationStage::Inserting;
                    CreationAction::InsertPayment { payment: self.new_payment.duplicate() }
                },
                _ => {
                    self.stage = CreationStage::LoadingExisting;
                    CreationAction::FindForUpdate { key: self.key.clone() }
                },
            },
            CreationStage::LoadingExisting => match event {
                CreationEvent::Loaded(Err(failure)) => self.database_failure(failure),
                CreationEvent::Loaded(Ok(Some(record))) => {
                    if !str_eq(record.request_hash.as_str(), self.request_hash.as_str()) {
                        return self.conflict(
                            "idempotency key was already used with a different request",
                        );
                    }
                    match stored_response(record) {
                        Ok((body, code)) => {
                            self.stage = CreationStage::DecodingExisting { status_code: code };
                            CreationAction::Decode { body }
                        },
                        Err(error) => self.finish(Err(error)),
                    }
                },
                _ => self.conflict(
                    "idempotency key was removed while being processed; retry the request",
                ),
            },
            CreationStage::DecodingExisting { status_code } => {
                let decoded = match event {
                    CreationEvent::Decoded(decoded) => decoded,
                    _ => None,
                };
                match replayed_result(decoded, status_code) {
                    Ok(result) => {
                        self.stage = CreationStage::CommittingReplay { result };
                        CreationAction::Commit
                    },
                    Err(error) => self.finish(Err(error)),
                }
            },
            CreationStage::CommittingReplay { result } => match event {
                CreationEvent::Completed(Err(failure)) => self.database_failure(failure),
                _ => self.finish(Ok(result)),
            },
            CreationStage::Inserting => match event {
                CreationEvent::Inserted(Ok(payment)) => {
                    let stored = payment.duplicate();
                    self.stage = CreationStage::Storing { payment };
                    CreationAction::StoreResponse {
                        key: self.key.clone(),
                        payment: stored,
                        status_code: CREATED_STATUS_CODE,
                    }
                },
                CreationEvent::Inserted(Err(failure)) => self.database_failure(failure),
                _ => self.finish(Err(IdempotentCreationError::InvalidStoredResponse)),
            },
            CreationStage::Storing { payment } => match event {
                CreationEvent::Stored(Ok(())) => {
                    self.stage = CreationStage::CommittingCreated { payment };
                    CreationAction::Commit
                },
                CreationEvent::Stored(Err(StoreFailure::Database(failure))) => self.database_failure(
                    failure,
                ),
                _ => self.finish(Err(IdempotentCreationError::InvalidStoredResponse)),
            },
            CreationStage::CommittingCreated { payment } => match event {
                CreationEvent::Completed(Err(failure)) => self.database_failure(failure),
                _ => self.finish(
                    Ok(
                        PaymentCreationResult {
                            payment,
                            status_code: CREATED_STATUS_CODE as u16,
                        },
                    ),
                ),
            },
            CreationStage::Finished => CreationAction::Finish(
                Err(IdempotentCreationError::InvalidStoredResponse),
            ),
        }
    }
}

} // verus!
