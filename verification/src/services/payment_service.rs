//! Creating and updating payments: validation, retry policies and the
//! answers to each outcome.

use vstd::prelude::*;

use crate::errors::{
    is_bad_request, is_conflict, is_not_found, is_serialization_code, AppError, DatabaseFailure,
};
use crate::ids::{is_random_uuid, uuid_text, uuid_to_string, FreshId};
use crate::models::payment::{status_text, NewPayment, Payment, PaymentStatus};
use crate::models::requests::{request_fingerprint, validated_new_payment, CreatePaymentRequest};
use crate::repositories::idempotency_repository::IdempotencyRecord;
use crate::text::join2;

verus! {

/// How many times a transaction aborted for serializability is tried.
pub const MAX_SERIALIZATION_ATTEMPTS: usize = 3;

/// The status code stored with, and replayed for, a created payment.
pub const CREATED_STATUS_CODE: i16 = 201;

/// How many times a request that finds its key held by another request
/// looks for that request's stored response.
pub const IDEMPOTENCY_REPLAY_WAIT_ATTEMPTS: usize = 20;

/// The pause between two such looks, in milliseconds.
pub const IDEMPOTENCY_REPLAY_WAIT_MILLIS: u64 = 25;

/// The longest accepted idempotency key, in bytes.
pub const MAX_IDEMPOTENCY_KEY_BYTES: usize = 255;

/// The payment answered to a create request and the status code to answer with.
#[derive(Debug)]
pub struct PaymentCreationResult {
    pub payment: Payment,
    pub status_code: u16,
}

/// Why one creation transaction did not produce a result.
#[derive(Debug)]
pub enum IdempotentCreationError {
    Conflict(String),
    Database(DatabaseFailure),
    InvalidStoredResponse,
}

/// Why one status-transition transaction did not produce a payment.
#[derive(Debug)]
pub enum TransitionError {
    PaymentNotFound,
    InvalidTransition { current: PaymentStatus, requested: PaymentStatus },
    ConcurrentStateChange,
    Database(DatabaseFailure),
}

/// An idempotency key holds between 1 and 255 bytes.
pub open spec fn idempotency_key_valid(key: &str) -> bool {
    key@.len() > 0 && vstd::utf8::encode_utf8(key@).len() <= MAX_IDEMPOTENCY_KEY_BYTES
}

pub open spec fn key_length_message() -> Seq<char> {
    "Idempotency-Key must contain between 1 and 255 characters"@
}

pub fn validate_idempotency_key(key: &str) -> (checked: Result<(), AppError>)
    ensures
        idempotency_key_valid(key) ==> checked == Ok::<(), AppError>(()),
        !idempotency_key_valid(key) ==> (checked matches Err(e) && is_bad_request(
            e,
            key_length_message(),
        )),
{
    if key.is_empty() || key.as_bytes().len() > MAX_IDEMPOTENCY_KEY_BYTES {
        return Err(AppError::bad_request("Idempotency-Key must contain between 1 and 255 characters"));
    }
    Ok(())
}

/// The prefix of every Redis lock key that guards an idempotency key.
pub open spec fn lock_key_text(key: Seq<char>) -> Seq<char> {
    "payment-service:idempotency:"@ + key
}

/// The Redis key that serialises requests sharing an idempotency key.
pub fn idempotency_lock_key(key: &str) -> (lock_key: String)
    ensures
        lock_key@ == lock_key_text(key@),
{
    join2("payment-service:idempotency:", key)
}

/// A validated create request, ready to be stored.
#[derive(Debug)]
pub struct PreparedCreation {
    pub request_hash: String,
    pub new_payment: NewPayment,
    pub lock_key: String,
}

/// `outcome` is what preparing `request` under `key` with the payment
/// identifier `payment_id` gives.
pub open spec fn prepared_from(
    key: &str,
    request: CreatePaymentRequest,
    payment_id: u128,
    outcome: Result<PreparedCreation, AppError>,
) -> bool {
    if !idempotency_key_valid(key) {
        outcome matches Err(e) && is_bad_request(e, key_length_message())
    } else {
        match outcome {
            Ok(prepared) => {
                &&& prepared.request_hash@ == request_fingerprint(request)
                &&& prepared.lock_key@ == lock_key_text(key@)
                &&& validated_new_payment(request, payment_id, Ok(prepared.new_payment))
            },
            Err(e) => validated_new_payment(request, payment_id, Err(e)),
        }
    }
}

/// Validates the idempotency key and the request, and derives what
/// creation needs: the request's hash, the payment to insert and the lock key.
pub fn prepare_creation(key: &str, request: CreatePaymentRequest, payment_id: u128) -> (outcome:
    Result<PreparedCreation, AppError>)
    ensures
        prepared_from(key, request, payment_id, outcome),
{
    match validate_idempotency_key(key) {
        Ok(()) => {},
        Err(error) => return Err(error),
    }
    let request_hash = request.request_hash();
    let new_payment = match request.into_new_payment(payment_id) {
        Ok(payment) => payment,
        Err(error) => return Err(error),
    };
    let lock_key = idempotency_lock_key(key);
    Ok(PreparedCreation { request_hash, new_payment, lock_key })
}

/// Prepares a create request under a freshly drawn random payment identifier.
pub fn start_creation(key: &str, request: CreatePaymentRequest) -> (outcome: Result<
    PreparedCreation,
    AppError,
>)
    ensures
        exists|payment_id: u128|
            is_random_uuid(payment_id) && prepared_from(key, request, payment_id, outcome),
{
    match validate_idempotency_key(key) {
        Ok(()) => {},
        Err(error) => {
            assert(prepared_from(key, request, 0x4000_8000_0000_0000_0000u128, Err(error)));
            assert(is_random_uuid(0x4000_8000_0000_0000_0000u128)) by (bit_vector);
            return Err(error);
        },
    }
    let payment_id = FreshId::draw();
    prepare_creation(key, request, payment_id.get())
}

/// What became of the attempt to take the Redis lock on an idempotency key.
#[derive(Debug, Clone, Copy, PartialEq, Eq, Structural)]
pub enum LockOutcome {
    Acquired,
    HeldElsewhere,
    Unavailable,
}

/// How a create request proceeds once the lock was tried.
#[derive(Debug, Clone, Copy, PartialEq, Eq, Structural)]
pub enum CreationRoute {
    /// Create durably, then release the lock.
    CreateHoldingLock,
    /// Another request holds the key: wait for and replay its response.
    ReplayExisting,
    /// Redis failed; PostgreSQL's unique key alone keeps creation single.
    CreateWithoutLock,
}

pub fn route_after_lock(outcome: LockOutcome) -> (route: CreationRoute)
    ensures
        outcome == LockOutcome::Acquired ==> route == CreationRoute::CreateHoldingLock,
        outcome == LockOutcome::HeldElsewhere ==> route == CreationRoute::ReplayExisting,
        outcome == LockOutcome::Unavailable ==> route == CreationRoute::CreateWithoutLock,
{
    match outcome {
        LockOutcome::Acquired => CreationRoute::CreateHoldingLock,
        LockOutcome::HeldElsewhere => CreationRoute::ReplayExisting,
        LockOutcome::Unavailable => CreationRoute::CreateWithoutLock,
    }
}

/// Serialization failures are retried, and nothing else is, but never past
/// the last attempt: a request makes at most three creation transactions.
pub proof fn lemma_creation_retries_bounded(
    attempt: usize,
    outcome: Result<PaymentCreationResult, IdempotentCreationError>,
    decision: CreationDecision,
)
    requires
        creation_decision(attempt, outcome, decision),
        decision is Retry,
    ensures
        attempt < MAX_SERIALIZATION_ATTEMPTS,
        outcome matches Err(IdempotentCreationError::Database(failure)) && is_serialization_code(
            failure.code,
        ),
{
}

/// What to do after one creation transaction.
#[derive(Debug)]
pub enum CreationDecision {
    Retry,
    Finish(Result<PaymentCreationResult, AppError>),
}

pub open spec fn creation_conflict_message() -> Seq<char> {
    "payment creation conflicted repeatedly; retry with the same idempotency key"@
}

/// The retry policy of durable creation: serialization failures are retried
/// until the last attempt; everything else ends the request.
pub open spec fn creation_decision(
    attempt: usize,
    outcome: Result<PaymentCreationResult, IdempotentCreationError>,
    decision: CreationDecision,
) -> bool {
    match outcome {
        Ok(result) => decision == CreationDecision::Finish(Ok(result)),
        Err(IdempotentCreationError::Conflict(message)) => decision == CreationDecision::Finish(
            Err(AppError::Conflict(message)),
        ),
        Err(IdempotentCreationError::Database(failure)) => if is_serialization_code(failure.code) {
            if attempt < MAX_SERIALIZATION_ATTEMPTS {
                decision is Retry
            } else {
                decision matches CreationDecision::Finish(Err(e)) && is_conflict(
                    e,
                    creation_conflict_message(),
                )
            }
        } else {
            decision == CreationDecision::Finish(Err(AppError::Internal))
        },
        Err(IdempotentCreationError::InvalidStoredResponse) => decision
            == CreationDecision::Finish(Err(AppError::Internal)),
    }
}

/// Decides what follows creation attempt number `attempt`.
pub fn after_creation_attempt(
    attempt: usize,
    outcome: Result<PaymentCreationResult, IdempotentCreationError>,
) -> (decision: CreationDecision)
    requires
        1 <= attempt <= MAX_SERIALIZATION_ATTEMPTS,
    ensures
        creation_decision(attempt, outcome, decision),
{
    match outcome {
        Ok(result) => CreationDecision::Finish(Ok(result)),
        Err(IdempotentCreationError::Conflict(message)) => CreationDecision::Finish(
            Err(AppError::Conflict(message)),
        ),
        Err(IdempotentCreationError::Database(failure)) => {
            if failure.is_serialization_failure() {
                if attempt < MAX_SERIALIZATION_ATTEMPTS {
                    CreationDecision::Retry
                } else {
                    CreationDecision::Finish(
                        Err(
                            AppError::conflict(
                                "payment creation conflicted repeatedly; retry with the same idempotency key",
                            ),
                        ),
                    )
                }
            } else {
                CreationDecision::Finish(Err(AppError::from(failure)))
            }
        },
        Err(IdempotentCreationError::InvalidStoredResponse) => CreationDecision::Finish(
            Err(AppError::Internal),
        ),
    }
}

/// The response stored with a record, before its JSON body is decoded: the
/// body and the status code, or why the record cannot be replayed.
pub open spec fn stored_response_of(
    record: IdempotencyRecord,
    outcome: Result<(String, i16), IdempotentCreationError>,
) -> bool {
    match record.response_body {
        None => outcome matches Err(IdempotentCreationError::Conflict(m)) && m@
            == "an identical payment request is currently being processed"@,
        Some(body) => match record.status_code {
            None => outcome == Err::<(String, i16), IdempotentCreationError>(
                IdempotentCreationError::InvalidStoredResponse,
            ),
            Some(code) => outcome == Ok::<(String, i16), IdempotentCreationError>((body, code)),
        },
    }
}

/// Takes the stored response out of a record.
pub fn stored_response(record: IdempotencyRecord) -> (outcome: Result<
    (String, i16),
    IdempotentCreationError,
>)
    ensures
        stored_response_of(record, outcome),
{
    let body = match record.response_body {
        Some(body) => body,
        None => {
            return Err(
                IdempotentCreationError::Conflict(
                    "an identical payment request is currently being processed".to_owned(),
                ),
            )
        },
    };
    match record.status_code {
        Some(code) => Ok((body, code)),
        None => Err(IdempotentCreationError::InvalidStoredResponse),
    }
}

/// The creation result a stored response replays, once its body was decoded
/// (`None` where the body was not a payment).
pub fn replayed_result(decoded: Option<Payment>, status_code: i16) -> (outcome: Result<
    PaymentCreationResult,
    IdempotentCreationError,
>)
    ensures
        match decoded {
            Some(payment) => outcome == Ok::<PaymentCreationResult, IdempotentCreationError>(
                PaymentCreationResult { payment, status_code: status_code as u16 },
            ),
            None => outcome == Err::<PaymentCreationResult, IdempotentCreationError>(
                IdempotentCreationError::InvalidStoredResponse,
            ),
        },
{
    match decoded {
        Some(payment) => Ok(PaymentCreationResult { payment, status_code: status_code as u16 }),
        None => Err(IdempotentCreationError::InvalidStoredResponse),
    }
}

/// The message for a payment that does not exist.
pub open spec fn payment_not_found_text(payment_id: u128) -> Seq<char> {
    "payment "@ + uuid_text(payment_id) + " was not found"@
}

fn payment_not_found(payment_id: u128) -> (error: AppError)
    ensures
        is_not_found(error, payment_not_found_text(payment_id)),
{
    let shown = uuid_to_string(payment_id);
    let message = join2("payment ", shown.as_str());
    let message = join2(message.as_str(), " was not found");
    AppError::not_found(message.as_str())
}

/// Answers a lookup of one payment by its identifier.
pub fn get_payment(found: Result<Option<Payment>, DatabaseFailure>, payment_id: u128) -> (answer:
    Result<Payment, AppError>)
    ensures
        match found {
            Err(_) => answer == Err::<Payment, AppError>(AppError::Internal),
            Ok(None) => answer matches Err(e) && is_not_found(
                e,
                payment_not_found_text(payment_id),
            ),
            Ok(Some(payment)) => answer == Ok::<Payment, AppError>(payment),
        },
{
    match found {
        Err(failure) => Err(AppError::from(failure)),
        Ok(None) => Err(payment_not_found(payment_id)),
        Ok(Some(payment)) => Ok(payment),
    }
}

/// What to do after one status-transition transaction.
#[derive(Debug)]
pub enum TransitionDecision {
    Retry,
    Finish(Result<Payment, AppError>),
}

pub open spec fn invalid_transition_text(current: PaymentStatus, requested: PaymentStatus) -> Seq<
    char,
> {
    "cannot transition payment from "@ + status_text(current) + " to "@ + status_text(requested)
}

pub open spec fn concurrent_change_message() -> Seq<char> {
    "payment state changed concurrently; retrieve the payment and retry if appropriate"@
}

pub open spec fn update_conflict_message() -> Seq<char> {
    "payment update conflicted repeatedly; retrieve the payment and retry"@
}

/// The retry policy of status updates and the answer to each outcome.
pub open spec fn transition_decision(
    attempt: usize,
    payment_id: u128,
    outcome: Result<Payment, TransitionError>,
    decision: TransitionDecision,
) -> bool {
    match outcome {
        Ok(payment) => decision == TransitionDecision::Finish(Ok(payment)),
        Err(TransitionError::PaymentNotFound) => decision matches TransitionDecision::Finish(
            Err(e),
        ) && is_not_found(e, payment_not_found_text(payment_id)),
        Err(TransitionError::InvalidTransition { current, requested }) => decision matches TransitionDecision::Finish(
            Err(e),
        ) && is_conflict(e, invalid_transition_text(current, requested)),
        Err(TransitionError::ConcurrentStateChange) => decision matches TransitionDecision::Finish(
            Err(e),
        ) && is_conflict(e, concurrent_change_message()),
        Err(TransitionError::Database(failure)) => if is_serialization_code(failure.code) {
            if attempt < MAX_SERIALIZATION_ATTEMPTS {
                decision is Retry
            } else {
                decision matches TransitionDecision::Finish(Err(e)) && is_conflict(
                    e,
                    update_conflict_message(),
                )
            }
        } else {
            decision == TransitionDecision::Finish(Err(AppError::Internal))
        },
    }
}

/// Serialization failures are retried, and nothing else is, but never past
/// the last attempt: a request makes at most three transition transactions.
pub proof fn lemma_transition_retries_bounded(
    attempt: usize,
    payment_id: u128,
    outcome: Result<Payment, TransitionError>,
    decision: TransitionDecision,
)
    requires
        transition_decision(attempt, payment_id, outcome, decision),
        decision is Retry,
    ensures
        attempt < MAX_SERIALIZATION_ATTEMPTS,
        outcome matches Err(TransitionError::Database(failure)) && is_serialization_code(
            failure.code,
        ),
{
}

/// The fixed limits of the service: at most three serializable transactions
/// per request, status 201 stored with a created payment, twenty looks for
/// another request's response 25 ms apart, and idempotency keys of 1 to 255
/// bytes.
pub proof fn lemma_service_limits(key: &str)
    ensures
        MAX_SERIALIZATION_ATTEMPTS == 3,
        CREATED_STATUS_CODE == 201,
        IDEMPOTENCY_REPLAY_WAIT_ATTEMPTS == 20,
        IDEMPOTENCY_REPLAY_WAIT_MILLIS == 25,
        idempotency_key_valid(key) <==> (key@.len() > 0 && vstd::utf8::encode_utf8(key@).len()
            <= 255),
{
}

/// A creation transaction is tried again exactly when it failed with
/// SQLSTATE 40001 and fewer than three were made; any other database failure
/// is answered as an internal error, and a conflict is passed on unchanged.
pub proof fn lemma_creation_retry_policy(
    attempt: usize,
    outcome: Result<PaymentCreationResult, IdempotentCreationError>,
    decision: CreationDecision,
)
    requires
        creation_decision(attempt, outcome, decision),
    ensures
        decision is Retry <==> (attempt < 3 && (outcome matches Err(
            IdempotentCreationError::Database(failure),
        ) && failure.code matches Some(code) && code@ == "40001"@)),
        outcome matches Err(IdempotentCreationError::Database(failure)) && !(failure.code matches Some(
            code,
        ) && code@ == "40001"@) ==> decision == CreationDecision::Finish(Err(AppError::Internal)),
        outcome matches Err(IdempotentCreationError::Conflict(message)) ==> decision
            == CreationDecision::Finish(Err(AppError::Conflict(message))),
        outcome matches Ok(result) ==> decision == CreationDecision::Finish(Ok(result)),
{
}

/// A status update is tried again exactly when its transaction failed with
/// SQLSTATE 40001 and fewer than three were made. A missing payment is
/// answered 404 only for the transaction's own report of a missing row, and
/// any other database failure is answered as an internal error.
pub proof fn lemma_transition_retry_policy(
    attempt: usize,
    payment_id: u128,
    outcome: Result<Payment, TransitionError>,
    decision: TransitionDecision,
)
    requires
        transition_decision(attempt, payment_id, outcome, decision),
    ensures
        decision is Retry <==> (attempt < 3 && (outcome matches Err(TransitionError::Database(failure))
            && failure.code matches Some(code) && code@ == "40001"@)),
        outcome matches Err(TransitionError::Database(failure)) && !(failure.code matches Some(code)
            && code@ == "40001"@) ==> decision == TransitionDecision::Finish(Err(AppError::Internal)),
        (decision matches TransitionDecision::Finish(Err(e)) && e is NotFound) ==> outcome
            == Err::<Payment, TransitionError>(TransitionError::PaymentNotFound),
        outcome matches Ok(payment) ==> decision == TransitionDecision::Finish(Ok(payment)),
{
}

/// The lease of a Redis lock in milliseconds: the lock's lifetime in
/// seconds, converted, or the largest `u64` where the product does not fit.
pub fn lock_ttl_millis(ttl_secs: u64) -> (millis: u64)
    ensures
        millis as int == if ttl_secs * 1000 <= u64::MAX {
            ttl_secs * 1000
        } else {
            u64::MAX as int
        },
{
    match ttl_secs.checked_mul(1000) {
        Some(millis) => millis,
        None => u64::MAX,
    }
}

/// Decides what follows status-transition attempt number `attempt`.
pub fn after_transition_attempt(
    attempt: usize,
    payment_id: u128,
    outcome: Result<Payment, TransitionError>,
) -> (decision: TransitionDecision)
    requires
        1 <= attempt <= MAX_SERIALIZATION_ATTEMPTS,
    ensures
        transition_decision(attempt, payment_id, outcome, decision),
{
    match outcome {
        Ok(payment) => TransitionDecision::Finish(Ok(payment)),
        Err(TransitionError::PaymentNotFound) => TransitionDecision::Finish(
            Err(payment_not_found(payment_id)),
        ),
        Err(TransitionError::InvalidTransition { current, requested }) => {
            let message = join2("cannot transition payment from ", current.as_str());
            let message = join2(message.as_str(), " to ");
            let message = join2(message.as_str(), requested.as_str());
            TransitionDecision::Finish(Err(AppError::conflict(message.as_str())))
        },
        Err(TransitionError::ConcurrentStateChange) => TransitionDecision::Finish(
            Err(
                AppError::conflict(
                    "payment state changed concurrently; retrieve the payment and retry if appropriate",
                ),
            ),
        ),
        Err(TransitionError::Database(failure)) => {
            if failure.is_serialization_failure() {
                if attempt < MAX_SERIALIZATION_ATTEMPTS {
                    TransitionDecision::Retry
                } else {
                    TransitionDecision::Finish(
                        Err(
                            AppError::conflict(
                                "payment update conflicted repeatedly; retrieve the payment and retry",
                            ),
                        ),
                    )
                }
            } else {
                TransitionDecision::Finish(Err(AppError::from(failure)))
            }
        },
    }
}

} // verus!
