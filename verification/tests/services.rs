use std::collections::HashMap;

use payment_service::errors::{AppError, DatabaseFailure};
use payment_service::models::amount::Amount;
use payment_service::models::payment::{NewPayment, Payment, PaymentStatus};
use payment_service::models::requests::CreatePaymentRequest;
use payment_service::repositories::idempotency_repository::IdempotencyRecord;
use payment_service::services::creation_attempt::{
    CreationAction, CreationAttempt, CreationEvent, StoreFailure,
};
use payment_service::services::payment_service::{
    after_creation_attempt, after_transition_attempt, get_payment, idempotency_lock_key,
    lock_ttl_millis, prepare_creation, route_after_lock, start_creation, stored_response,
    validate_idempotency_key, CreationDecision, CreationRoute, IdempotentCreationError,
    LockOutcome, PaymentCreationResult, TransitionDecision, TransitionError,
};
use payment_service::services::replay::{ReplayAction, ReplayEvent, ReplayPoll};
use payment_service::services::transition_attempt::{
    TransitionAction, TransitionAttempt, TransitionEvent,
};

const PAYMENT_ID: u128 = 0x67e5_5044_10b1_426f_9247_bb68_0e5f_e0c8;

fn request() -> CreatePaymentRequest {
    CreatePaymentRequest {
        merchant_id: 11,
        amount: Amount::new(50000, 2),
        currency: "INR".to_owned(),
    }
}

fn payment(id: u128, status: PaymentStatus) -> Payment {
    Payment {
        id,
        merchant_id: 11,
        amount: Amount::new(50000, 2),
        currency: "INR".to_owned(),
        status,
        created_at_micros: 1_700_000_000_000_000,
        updated_at_micros: 1_700_000_000_000_000,
    }
}

fn serialization() -> DatabaseFailure {
    DatabaseFailure { code: Some("40001".to_owned()) }
}

fn message(error: &AppError) -> &str {
    match error {
        AppError::BadRequest(m) | AppError::NotFound(m) | AppError::Conflict(m) => m,
        AppError::Internal => "internal",
    }
}

#[test]
fn idempotency_keys_hold_1_to_255_bytes() {
    assert!(validate_idempotency_key("k").is_ok());
    assert!(validate_idempotency_key(&"k".repeat(255)).is_ok());
    let too_long = validate_idempotency_key(&"k".repeat(256)).unwrap_err();
    assert_eq!(message(&too_long), "Idempotency-Key must contain between 1 and 255 characters");
    assert!(validate_idempotency_key("").is_err());
    // Bytes count, not characters: 128 two-byte characters are 256 bytes.
    assert!(validate_idempotency_key(&"é".repeat(128)).is_err());
    assert!(validate_idempotency_key(&"é".repeat(127)).is_ok());
}

#[test]
fn preparation_validates_and_derives_lock_key_and_hash() {
    let prepared = prepare_creation("abc", request(), 5).unwrap();
    assert_eq!(prepared.lock_key, "payment-service:idempotency:abc");
    assert_eq!(prepared.request_hash, "11:50000:2:INR");
    assert_eq!(prepared.new_payment.id, 5);
    assert_eq!(prepared.new_payment.status, PaymentStatus::Pending);
    assert_eq!(idempotency_lock_key("x"), "payment-service:idempotency:x");

    let bad_key = prepare_creation("", request(), 5).unwrap_err();
    assert!(matches!(bad_key, AppError::BadRequest(_)));
    let mut bad = request();
    bad.amount = Amount::new(0, 0);
    let error = prepare_creation("abc", bad, 5).unwrap_err();
    assert_eq!(message(&error), "amount must be greater than zero");
}

#[test]
fn fresh_payment_ids_are_random_v4_uuids() {
    let first = start_creation("abc", request()).unwrap();
    let second = start_creation("abc", request()).unwrap();
    for id in [first.new_payment.id, second.new_payment.id] {
        let uuid = uuid::Uuid::from_u128(id);
        assert_eq!(uuid.get_version_num(), 4);
        assert_eq!(uuid.get_variant(), uuid::Variant::RFC4122);
    }
    assert_ne!(first.new_payment.id, second.new_payment.id);
}

#[test]
fn redis_failure_falls_back_to_durable_creation() {
    assert_eq!(route_after_lock(LockOutcome::Acquired), CreationRoute::CreateHoldingLock);
    assert_eq!(route_after_lock(LockOutcome::HeldElsewhere), CreationRoute::ReplayExisting);
    assert_eq!(route_after_lock(LockOutcome::Unavailable), CreationRoute::CreateWithoutLock);
}

#[test]
fn lock_lease_is_in_milliseconds_and_saturates() {
    assert_eq!(lock_ttl_millis(30), 30_000);
    assert_eq!(lock_ttl_millis(u64::MAX), u64::MAX);
    assert_eq!(lock_ttl_millis(u64::MAX / 1000), (u64::MAX / 1000) * 1000);
}

#[test]
fn creation_retries_only_serialization_failures_up_to_three_attempts() {
    assert!(matches!(
        after_creation_attempt(1, Err(IdempotentCreationError::Database(serialization()))),
        CreationDecision::Retry
    ));
    assert!(matches!(
        after_creation_attempt(2, Err(IdempotentCreationError::Database(serialization()))),
        CreationDecision::Retry
    ));
    match after_creation_attempt(3, Err(IdempotentCreationError::Database(serialization()))) {
        CreationDecision::Finish(Err(e)) => assert_eq!(
            message(&e),
            "payment creation conflicted repeatedly; retry with the same idempotency key"
        ),
        other => panic!("unexpected {other:?}"),
    }
    let other = DatabaseFailure { code: Some("08006".to_owned()) };
    assert!(matches!(
        after_creation_attempt(1, Err(IdempotentCreationError::Database(other))),
        CreationDecision::Finish(Err(AppError::Internal))
    ));
    assert!(matches!(
        after_creation_attempt(1, Err(IdempotentCreationError::InvalidStoredResponse)),
        CreationDecision::Finish(Err(AppError::Internal))
    ));
    match after_creation_attempt(1, Err(IdempotentCreationError::Conflict("c".to_owned()))) {
        CreationDecision::Finish(Err(AppError::Conflict(m))) => assert_eq!(m, "c"),
        other => panic!("unexpected {other:?}"),
    }
    let ok = PaymentCreationResult { payment: payment(1, PaymentStatus::Pending), status_code: 201 };
    assert!(matches!(
        after_creation_attempt(3, Ok(ok)),
        CreationDecision::Finish(Ok(PaymentCreationResult { status_code: 201, .. }))
    ));
}

#[test]
fn transition_answers_name_the_payment_and_statuses() {
    match after_transition_attempt(1, PAYMENT_ID, Err(TransitionError::PaymentNotFound)) {
        TransitionDecision::Finish(Err(AppError::NotFound(m))) => assert_eq!(
            m,
            "payment 67e55044-10b1-426f-9247-bb680e5fe0c8 was not found"
        ),
        other => panic!("unexpected {other:?}"),
    }
    let invalid = TransitionError::InvalidTransition {
        current: PaymentStatus::Succeeded,
        requested: PaymentStatus::Failed,
    };
    match after_transition_attempt(1, PAYMENT_ID, Err(invalid)) {
        TransitionDecision::Finish(Err(AppError::Conflict(m))) => {
            assert_eq!(m, "cannot transition payment from succeeded to failed")
        }
        other => panic!("unexpected {other:?}"),
    }
    match after_transition_attempt(1, PAYMENT_ID, Err(TransitionError::ConcurrentStateChange)) {
        TransitionDecision::Finish(Err(AppError::Conflict(m))) => assert_eq!(
            m,
            "payment state changed concurrently; retrieve the payment and retry if appropriate"
        ),
        other => panic!("unexpected {other:?}"),
    }
    assert!(matches!(
        after_transition_attempt(2, PAYMENT_ID, Err(TransitionError::Database(serialization()))),
        TransitionDecision::Retry
    ));
    match after_transition_attempt(3, PAYMENT_ID, Err(TransitionError::Database(serialization()))) {
        TransitionDecision::Finish(Err(AppError::Conflict(m))) => assert_eq!(
            m,
            "payment update conflicted repeatedly; retrieve the payment and retry"
        ),
        other => panic!("unexpected {other:?}"),
    }
    assert!(matches!(
        after_transition_attempt(
            1,
            PAYMENT_ID,
            Err(TransitionError::Database(DatabaseFailure { code: None }))
        ),
        TransitionDecision::Finish(Err(AppError::Internal))
    ));
}

#[test]
fn lookups_answer_found_missing_or_internal() {
    let found = get_payment(Ok(Some(payment(PAYMENT_ID, PaymentStatus::Pending))), PAYMENT_ID);
    assert_eq!(found.unwrap().id, PAYMENT_ID);
    let missing = get_payment(Ok(None), PAYMENT_ID).unwrap_err();
    assert_eq!(message(&missing), "payment 67e55044-10b1-426f-9247-bb680e5fe0c8 was not found");
    assert!(matches!(
        get_payment(Err(DatabaseFailure { code: None }), PAYMENT_ID),
        Err(AppError::Internal)
    ));
}

#[test]
fn stored_records_are_replayable_only_when_complete() {
    let record = IdempotencyRecord {
        request_hash: "h".to_owned(),
        response_body: Some("body".to_owned()),
        status_code: Some(201),
    };
    assert_eq!(stored_response(record).unwrap(), ("body".to_owned(), 201));
    let pending = IdempotencyRecord {
        request_hash: "h".to_owned(),
        response_body: None,
        status_code: None,
    };
    match stored_response(pending) {
        Err(IdempotentCreationError::Conflict(m)) => {
            assert_eq!(m, "an identical payment request is currently being processed")
        }
        other => panic!("unexpected {other:?}"),
    }
    let no_code = IdempotencyRecord {
        request_hash: "h".to_owned(),
        response_body: Some("body".to_owned()),
        status_code: None,
    };
    assert!(matches!(
        stored_response(no_code),
        Err(IdempotentCreationError::InvalidStoredResponse)
    ));
}

/// An in-memory stand-in for the two tables, with transactions as copies.
#[derive(Clone, Default)]
struct Tables {
    keys: HashMap<String, IdempotencyRecord>,
    payments: HashMap<u128, Payment>,
}

fn encode(payment: &Payment) -> String {
    payment.id.to_string()
}

fn run_creation(tables: &mut Tables, attempt: &mut CreationAttempt) -> (
    Result<PaymentCreationResult, IdempotentCreationError>,
    usize,
) {
    let mut tx: Option<Tables> = None;
    let mut event = CreationEvent::Started;
    let mut inserts = 0;
    loop {
        assert!(attempt.accepts(&event));
        event = match attempt.step(event) {
            CreationAction::BeginTransaction => {
                tx = Some(tables.clone());
                CreationEvent::Completed(Ok(()))
            }
            CreationAction::SetSerializable | CreationAction::DeleteExpired { .. } => {
                CreationEvent::Completed(Ok(()))
            }
            CreationAction::TryInsert { key, request_hash, .. } => {
                let t = tx.as_mut().unwrap();
                if t.keys.contains_key(&key) {
                    CreationEvent::Claimed(Ok(false))
                } else {
                    t.keys.insert(
                        key,
                        IdempotencyRecord { request_hash, response_body: None, status_code: None },
                    );
                    CreationEvent::Claimed(Ok(true))
                }
            }
            CreationAction::FindForUpdate { key } => {
                CreationEvent::Loaded(Ok(tx.as_ref().unwrap().keys.get(&key).cloned()))
            }
            CreationAction::Decode { body } => {
                let id: u128 = body.parse().unwrap();
                CreationEvent::Decoded(tx.as_ref().unwrap().payments.get(&id).cloned())
            }
            CreationAction::InsertPayment { payment: new } => {
                inserts += 1;
                let NewPayment { id, merchant_id, amount, currency, status } = new;
                let stored = Payment {
                    id,
                    merchant_id,
                    amount,
                    currency,
                    status,
                    created_at_micros: 5,
                    updated_at_micros: 5,
                };
                tx.as_mut().unwrap().payments.insert(id, stored.clone());
                CreationEvent::Inserted(Ok(stored))
            }
            CreationAction::StoreResponse { key, payment, status_code } => {
                let record = tx.as_mut().unwrap().keys.get_mut(&key).unwrap();
                record.response_body = Some(encode(&payment));
                record.status_code = Some(status_code);
                CreationEvent::Stored(Ok(()))
            }
            CreationAction::Commit => {
                *tables = tx.take().unwrap();
                CreationEvent::Completed(Ok(()))
            }
            CreationAction::Finish(result) => return (result, inserts),
        };
    }
}

fn create(tables: &mut Tables, key: &str, request: CreatePaymentRequest, id: u128) -> (
    Result<PaymentCreationResult, IdempotentCreationError>,
    usize,
) {
    let prepared = prepare_creation(key, request, id).unwrap();
    let mut attempt = CreationAttempt::new(key, &prepared.request_hash, &prepared.new_payment, 60);
    run_creation(tables, &mut attempt)
}

#[test]
fn retried_requests_get_the_same_payment_and_create_only_one() {
    let mut tables = Tables::default();
    let (first, inserts) = create(&mut tables, "retry-key", request(), 1);
    let first = first.unwrap();
    assert_eq!(inserts, 1);
    assert_eq!(first.status_code, 201);
    assert_eq!(first.payment.id, 1);
    assert_eq!(first.payment.status, PaymentStatus::Pending);

    for retry_id in 2..12 {
        let (again, inserts) = create(&mut tables, "retry-key", request(), retry_id);
        let again = again.unwrap();
        assert_eq!(inserts, 0);
        assert_eq!(again.status_code, 201);
        assert_eq!(again.payment.id, first.payment.id);
    }
    assert_eq!(tables.payments.len(), 1);

    let mut different = request();
    different.amount = Amount::new(50001, 2);
    match create(&mut tables, "retry-key", different, 99) {
        (Err(IdempotentCreationError::Conflict(m)), 0) => {
            assert_eq!(m, "idempotency key was already used with a different request")
        }
        other => panic!("unexpected {other:?}"),
    }
    assert_eq!(tables.payments.len(), 1);
}

#[test]
fn a_failed_store_rolls_back_and_reports_a_database_failure() {
    let mut tables = Tables::default();
    let prepared = prepare_creation("k", request(), 3).unwrap();
    let mut attempt = CreationAttempt::new("k", &prepared.request_hash, &prepared.new_payment, 60);
    let mut actions = Vec::new();
    let events = vec![
        CreationEvent::Started,
        CreationEvent::Completed(Ok(())),
        CreationEvent::Completed(Ok(())),
        CreationEvent::Completed(Ok(())),
        CreationEvent::Claimed(Ok(true)),
        CreationEvent::Inserted(Ok(payment(3, PaymentStatus::Pending))),
        CreationEvent::Stored(Err(StoreFailure::Database(serialization()))),
    ];
    for event in events {
        actions.push(attempt.step(event));
    }
    assert!(attempt.is_finished());
    assert!(matches!(actions[0], CreationAction::BeginTransaction));
    assert!(matches!(actions[1], CreationAction::SetSerializable));
    assert!(matches!(&actions[2], CreationAction::DeleteExpired { key } if key == "k"));
    match &actions[3] {
        CreationAction::TryInsert { record_id, key, request_hash, ttl_secs } => {
            assert_eq!(uuid::Uuid::from_u128(*record_id).get_version_num(), 4);
            assert_eq!((key.as_str(), request_hash.as_str(), *ttl_secs), ("k", "11:50000:2:INR", 60));
        }
        other => panic!("unexpected {other:?}"),
    }
    assert!(matches!(&actions[4], CreationAction::InsertPayment { payment } if payment.id == 3));
    assert!(matches!(
        &actions[5],
        CreationAction::StoreResponse { status_code: 201, payment, .. } if payment.id == 3
    ));
    assert!(matches!(
        actions[6],
        CreationAction::Finish(Err(IdempotentCreationError::Database(_)))
    ));
    assert!(tables.payments.is_empty());
    let _ = &mut tables;
}

#[test]
fn an_unencodable_payment_is_an_invalid_stored_response() {
    let prepared = prepare_creation("k", request(), 3).unwrap();
    let mut attempt = CreationAttempt::new("k", &prepared.request_hash, &prepared.new_payment, 60);
    for event in [
        CreationEvent::Started,
        CreationEvent::Completed(Ok(())),
        CreationEvent::Completed(Ok(())),
        CreationEvent::Completed(Ok(())),
        CreationEvent::Claimed(Ok(true)),
        CreationEvent::Inserted(Ok(payment(3, PaymentStatus::Pending))),
    ] {
        attempt.step(event);
    }
    assert!(matches!(
        attempt.step(CreationEvent::Stored(Err(StoreFailure::Encode))),
        CreationAction::Finish(Err(IdempotentCreationError::InvalidStoredResponse))
    ));
}

#[test]
fn a_key_removed_during_processing_is_a_conflict() {
    let prepared = prepare_creation("k", request(), 3).unwrap();
    let mut attempt = CreationAttempt::new("k", &prepared.request_hash, &prepared.new_payment, 60);
    for event in [
        CreationEvent::Started,
        CreationEvent::Completed(Ok(())),
        CreationEvent::Completed(Ok(())),
        CreationEvent::Completed(Ok(())),
        CreationEvent::Claimed(Ok(false)),
    ] {
        attempt.step(event);
    }
    match attempt.step(CreationEvent::Loaded(Ok(None))) {
        CreationAction::Finish(Err(IdempotentCreationError::Conflict(m))) => assert_eq!(
            m,
            "idempotency key was removed while being processed; retry the request"
        ),
        other => panic!("unexpected {other:?}"),
    }
}

#[test]
fn waiting_requests_replay_the_stored_response() {
    let mut poll = ReplayPoll::new("k", "h");
    assert!(matches!(poll.step(ReplayEvent::Started), ReplayAction::FindActive { key } if key == "k"));
    assert!(matches!(
        poll.step(ReplayEvent::LookedUp(Ok(None))),
        ReplayAction::Sleep { millis: 25 }
    ));
    assert!(matches!(poll.step(ReplayEvent::Slept), ReplayAction::FindActive { .. }));
    let in_progress = IdempotencyRecord {
        request_hash: "h".to_owned(),
        response_body: None,
        status_code: None,
    };
    assert!(matches!(
        poll.step(ReplayEvent::LookedUp(Ok(Some(in_progress)))),
        ReplayAction::Sleep { .. }
    ));
    assert!(matches!(poll.step(ReplayEvent::Slept), ReplayAction::FindActive { .. }));
    let done = IdempotencyRecord {
        request_hash: "h".to_owned(),
        response_body: Some("{...}".to_owned()),
        status_code: Some(201),
    };
    assert!(matches!(
        poll.step(ReplayEvent::LookedUp(Ok(Some(done)))),
        ReplayAction::Decode { body } if body == "{...}"
    ));
    match poll.step(ReplayEvent::Decoded(Some(payment(8, PaymentStatus::Pending)))) {
        ReplayAction::Finish(Ok(result)) => {
            assert_eq!((result.payment.id, result.status_code), (8, 201))
        }
        other => panic!("unexpected {other:?}"),
    }
}

#[test]
fn waiting_gives_up_after_twenty_lookups() {
    let mut poll = ReplayPoll::new("k", "h");
    let mut lookups = 0;
    let mut event = ReplayEvent::Started;
    let answer = loop {
        match poll.step(event) {
            ReplayAction::FindActive { .. } => {
                lookups += 1;
                event = ReplayEvent::LookedUp(Ok(None));
            }
            ReplayAction::Sleep { .. } => event = ReplayEvent::Slept,
            ReplayAction::Finish(answer) => break answer,
            ReplayAction::Decode { .. } => panic!("nothing to decode"),
        }
    };
    assert_eq!(lookups, 20);
    assert_eq!(
        message(&answer.unwrap_err()),
        "an identical payment request is still being processed; retry with the same idempotency key"
    );
}

#[test]
fn waiting_rejects_a_different_request_and_broken_records() {
    let mut poll = ReplayPoll::new("k", "h");
    poll.step(ReplayEvent::Started);
    let other = IdempotencyRecord {
        request_hash: "other".to_owned(),
        response_body: Some("x".to_owned()),
        status_code: Some(201),
    };
    match poll.step(ReplayEvent::LookedUp(Ok(Some(other)))) {
        ReplayAction::Finish(Err(e)) => {
            assert_eq!(message(&e), "idempotency key was already used with a different request")
        }
        other => panic!("unexpected {other:?}"),
    }

    let mut poll = ReplayPoll::new("k", "h");
    poll.step(ReplayEvent::Started);
    poll.step(ReplayEvent::LookedUp(Ok(Some(IdempotencyRecord {
        request_hash: "h".to_owned(),
        response_body: Some("x".to_owned()),
        status_code: Some(201),
    }))));
    assert!(matches!(
        poll.step(ReplayEvent::Decoded(None)),
        ReplayAction::Finish(Err(AppError::Internal))
    ));

    let mut poll = ReplayPoll::new("k", "h");
    poll.step(ReplayEvent::Started);
    assert!(matches!(
        poll.step(ReplayEvent::LookedUp(Err(DatabaseFailure { code: None }))),
        ReplayAction::Finish(Err(AppError::Internal))
    ));
}

fn run_transition(stored: &mut Payment, requested: PaymentStatus, interfere: bool) -> Result<Payment, TransitionError> {
    let mut attempt = TransitionAttempt::new(stored.id, requested);
    let mut event = TransitionEvent::Started;
    let mut pending: Option<Payment> = None;
    loop {
        assert!(attempt.accepts(&event));
        event = match attempt.step(event) {
            TransitionAction::BeginTransaction | TransitionAction::SetSerializable => {
                TransitionEvent::Completed(Ok(()))
            }
            TransitionAction::FindForUpdate { payment_id } => {
                assert_eq!(payment_id, stored.id);
                TransitionEvent::Loaded(Ok(Some(stored.clone())))
            }
            TransitionAction::UpdateStatus { payment_id, expected, next } => {
                assert_eq!(payment_id, stored.id);
                if interfere {
                    stored.status = PaymentStatus::Failed;
                }
                if stored.status == expected {
                    let mut updated = stored.clone();
                    updated.status = next;
                    updated.updated_at_micros += 1;
                    pending = Some(updated.clone());
                    TransitionEvent::Updated(Ok(Some(updated)))
                } else {
                    TransitionEvent::Updated(Ok(None))
                }
            }
            TransitionAction::Commit => {
                *stored = pending.take().unwrap();
                TransitionEvent::Completed(Ok(()))
            }
            TransitionAction::Finish(result) => return result,
        };
    }
}

#[test]
fn status_updates_follow_the_lifecycle() {
    let mut stored = payment(PAYMENT_ID, PaymentStatus::Pending);
    assert!(matches!(
        run_transition(&mut stored, PaymentStatus::Succeeded, false),
        Err(TransitionError::InvalidTransition {
            current: PaymentStatus::Pending,
            requested: PaymentStatus::Succeeded
        })
    ));
    assert_eq!(stored.status, PaymentStatus::Pending);
    let updated = run_transition(&mut stored, PaymentStatus::Processing, false).unwrap();
    assert_eq!(updated.status, PaymentStatus::Processing);
    assert_eq!(stored.status, PaymentStatus::Processing);
    let done = run_transition(&mut stored, PaymentStatus::Succeeded, false).unwrap();
    assert_eq!(done.status, PaymentStatus::Succeeded);
    assert!(run_transition(&mut stored, PaymentStatus::Failed, false).is_err());

    let mut raced = payment(PAYMENT_ID, PaymentStatus::Processing);
    assert!(matches!(
        run_transition(&mut raced, PaymentStatus::Succeeded, true),
        Err(TransitionError::ConcurrentStateChange)
    ));
    assert_eq!(raced.status, PaymentStatus::Failed);
}

#[test]
fn a_missing_payment_cannot_transition() {
    let mut attempt = TransitionAttempt::new(PAYMENT_ID, PaymentStatus::Processing);
    attempt.step(TransitionEvent::Started);
    attempt.step(TransitionEvent::Completed(Ok(())));
    assert!(matches!(
        attempt.step(TransitionEvent::Completed(Ok(()))),
        TransitionAction::FindForUpdate { payment_id: PAYMENT_ID }
    ));
    assert!(matches!(
        attempt.step(TransitionEvent::Loaded(Ok(None))),
        TransitionAction::Finish(Err(TransitionError::PaymentNotFound))
    ));
}
