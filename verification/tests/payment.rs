use payment_service::models::payment::PaymentStatus;
use payment_service::repositories::payment_repository::PaymentRow;
use payment_service::models::amount::Amount;

#[test]
fn parses_known_database_status() {
    assert_eq!(
        PaymentStatus::try_from("succeeded").unwrap(),
        PaymentStatus::Succeeded
    );
}

#[test]
fn rejects_unknown_database_status() {
    assert!(PaymentStatus::try_from("cancelled").is_err());
}

#[test]
fn permits_only_defined_lifecycle_transitions() {
    assert!(PaymentStatus::Pending.can_transition_to(PaymentStatus::Processing));
    assert!(PaymentStatus::Processing.can_transition_to(PaymentStatus::Succeeded));
    assert!(PaymentStatus::Processing.can_transition_to(PaymentStatus::Failed));

    assert!(!PaymentStatus::Pending.can_transition_to(PaymentStatus::Succeeded));
    assert!(!PaymentStatus::Succeeded.can_transition_to(PaymentStatus::Failed));
    assert!(!PaymentStatus::Failed.can_transition_to(PaymentStatus::Processing));
}

const ALL: [PaymentStatus; 4] = [
    PaymentStatus::Pending,
    PaymentStatus::Processing,
    PaymentStatus::Succeeded,
    PaymentStatus::Failed,
];

#[test]
fn status_text_round_trips() {
    for status in ALL {
        assert_eq!(PaymentStatus::try_from(status.as_str()).unwrap(), status);
    }
    assert_eq!(PaymentStatus::Pending.as_str(), "pending");
    assert_eq!(PaymentStatus::Processing.as_str(), "processing");
    assert_eq!(PaymentStatus::Succeeded.as_str(), "succeeded");
    assert_eq!(PaymentStatus::Failed.as_str(), "failed");
}

#[test]
fn status_parsing_is_exact() {
    assert!(PaymentStatus::try_from("Pending").is_err());
    assert!(PaymentStatus::try_from("pending ").is_err());
    assert!(PaymentStatus::try_from("").is_err());
    let error = PaymentStatus::try_from("cancelled").unwrap_err();
    assert_eq!(error.message(), "unknown payment status: cancelled");
}

#[test]
fn lifecycle_never_moves_backwards_or_stays() {
    for from in ALL {
        assert!(!from.can_transition_to(from));
        assert!(!from.can_transition_to(PaymentStatus::Pending));
        for to in ALL {
            if from.can_transition_to(to) {
                assert!(!to.can_transition_to(from));
            }
        }
    }
    for terminal in [PaymentStatus::Succeeded, PaymentStatus::Failed] {
        for to in ALL {
            assert!(!terminal.can_transition_to(to));
        }
    }
}

#[test]
fn stored_rows_become_payments() {
    let row = PaymentRow {
        id: 7,
        merchant_id: 9,
        amount: Amount::new(50000, 2),
        currency: "INR".to_owned(),
        status: "processing".to_owned(),
        created_at_micros: 1,
        updated_at_micros: 2,
    };
    let payment = row.into_payment().unwrap();
    assert_eq!(payment.status, PaymentStatus::Processing);
    assert_eq!(payment.id, 7);
    assert_eq!(payment.currency, "INR");

    let bad = PaymentRow {
        id: 7,
        merchant_id: 9,
        amount: Amount::new(1, 0),
        currency: "INR".to_owned(),
        status: "refunded".to_owned(),
        created_at_micros: 1,
        updated_at_micros: 2,
    };
    assert_eq!(
        bad.into_payment().unwrap_err().message(),
        "unknown payment status: refunded"
    );
}
