use payment_service::errors::AppError;
use payment_service::models::amount::Amount;
use payment_service::models::payment::PaymentStatus;
use payment_service::models::requests::{is_valid_currency, CreatePaymentRequest};
use rust_decimal::Decimal;
use uuid::Uuid;

fn amount(decimal: Decimal) -> Amount {
    Amount::from_parts(decimal.mantissa(), decimal.scale()).unwrap()
}

fn bad_request_message(error: AppError) -> String {
    match error {
        AppError::BadRequest(message) => message,
        other => panic!("expected a bad request, got {other:?}"),
    }
}

#[test]
fn rejects_more_than_two_decimal_places() {
    let request = CreatePaymentRequest {
        merchant_id: Uuid::new_v4().as_u128(),
        amount: amount(Decimal::new(123, 3)),
        currency: "INR".to_owned(),
    };

    assert!(request.into_new_payment(Uuid::new_v4().as_u128()).is_err());
}

#[test]
fn accepts_a_valid_request() {
    let request = CreatePaymentRequest {
        merchant_id: Uuid::new_v4().as_u128(),
        amount: amount(Decimal::new(50000, 2)),
        currency: "INR".to_owned(),
    };

    assert!(request.into_new_payment(Uuid::new_v4().as_u128()).is_ok());
}

#[test]
fn new_payments_start_pending_with_the_request_fields() {
    let request = CreatePaymentRequest {
        merchant_id: 42,
        amount: Amount::new(1999, 2),
        currency: "EUR".to_owned(),
    };
    let payment = request.into_new_payment(7).unwrap();
    assert_eq!(payment.id, 7);
    assert_eq!(payment.merchant_id, 42);
    assert_eq!(payment.amount.mantissa(), 1999);
    assert_eq!(payment.amount.scale(), 2);
    assert_eq!(payment.currency, "EUR");
    assert_eq!(payment.status, PaymentStatus::Pending);
}

#[test]
fn rejects_non_positive_amounts_first() {
    for value in [Amount::new(0, 0), Amount::new(-5, 0), Amount::new(-1, 3)] {
        let request = CreatePaymentRequest {
            merchant_id: 1,
            amount: value,
            currency: "bad".to_owned(),
        };
        assert_eq!(
            bad_request_message(request.into_new_payment(1).unwrap_err()),
            "amount must be greater than zero"
        );
    }
    let request = CreatePaymentRequest {
        merchant_id: 1,
        amount: Amount::new(123, 3),
        currency: "INR".to_owned(),
    };
    assert_eq!(
        bad_request_message(request.into_new_payment(1).unwrap_err()),
        "amount must have no more than two decimal places"
    );
    let request = CreatePaymentRequest {
        merchant_id: 1,
        amount: Amount::new(100, 0),
        currency: "inr".to_owned(),
    };
    assert_eq!(
        bad_request_message(request.into_new_payment(1).unwrap_err()),
        "currency must be a three-letter uppercase ISO code"
    );
}

#[test]
fn currency_codes_are_three_uppercase_ascii_letters() {
    assert!(is_valid_currency("INR"));
    assert!(is_valid_currency("USD"));
    assert!(!is_valid_currency("US"));
    assert!(!is_valid_currency("USDT"));
    assert!(!is_valid_currency("Usd"));
    assert!(!is_valid_currency("U$D"));
    assert!(!is_valid_currency(""));
    assert!(!is_valid_currency("ÄB"));
}

#[test]
fn amounts_follow_decimal_ranges() {
    let max = Decimal::MAX;
    assert_eq!(amount(max).mantissa(), max.mantissa());
    assert!(Amount::from_parts(1, 29).is_none());
    assert!(Amount::from_parts(max.mantissa() + 1, 0).is_none());
    assert!(Amount::from_parts(-max.mantissa() - 1, 0).is_none());
    assert!(Amount::from_parts(-max.mantissa(), 28).is_some());
    let negative_zero = Decimal::new(-0, 2);
    assert!(!amount(negative_zero).is_positive());
}

#[test]
fn request_hash_is_canonical_and_distinguishes_requests() {
    let request = CreatePaymentRequest {
        merchant_id: 255,
        amount: Amount::new(-1050, 2),
        currency: "INR".to_owned(),
    };
    assert_eq!(request.request_hash(), "255:-1050:2:INR");

    let same = request.clone();
    assert_eq!(same.request_hash(), request.request_hash());

    let other_scale = CreatePaymentRequest {
        merchant_id: 255,
        amount: Amount::new(-10500, 3),
        currency: "INR".to_owned(),
    };
    assert_ne!(other_scale.request_hash(), request.request_hash());

    let shifted = CreatePaymentRequest {
        merchant_id: 25,
        amount: Amount::new(5, 0),
        currency: "1:0:INR".to_owned(),
    };
    let other = CreatePaymentRequest {
        merchant_id: 25,
        amount: Amount::new(51, 0),
        currency: "0:INR".to_owned(),
    };
    assert_ne!(shifted.request_hash(), other.request_hash());
}
