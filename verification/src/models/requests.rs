//! Requests accepted by the payment endpoints.

use vstd::prelude::*;

use crate::decimal::{
    decimal_text, lemma_decimal_text_injective, lemma_decimal_text_reads_back,
    lemma_signed_decimal_text_injective, push_decimal, push_signed_decimal, signed_decimal_text,
};
use crate::errors::{is_bad_request, AppError};
use crate::models::amount::Amount;
use crate::models::payment::{NewPayment, PaymentStatus};

verus! {

/// The body accepted by `POST /payments`.
#[derive(Debug, Clone)]
pub struct CreatePaymentRequest {
    pub merchant_id: u128,
    pub amount: Amount,
    pub currency: String,
}

/// The body accepted by `PATCH /payments/{id}/status`.
#[derive(Debug, Clone, Copy)]
pub struct UpdatePaymentStatusRequest {
    pub status: PaymentStatus,
}

/// A currency code: three bytes, each an ASCII uppercase letter.
pub open spec fn valid_currency(text: Seq<char>) -> bool {
    let bytes = vstd::utf8::encode_utf8(text);
    &&& bytes.len() == 3
    &&& forall|i: int| 0 <= i < bytes.len() ==> 65 <= #[trigger] bytes[i] <= 90
}

/// Bytes below 128 each encode one character: a text whose UTF-8 encoding
/// has only such bytes has one byte per character, equal to it.
proof fn lemma_ascii_encoding(text: Seq<char>)
    requires
        forall|i: int|
            0 <= i < vstd::utf8::encode_utf8(text).len() ==> #[trigger] vstd::utf8::encode_utf8(
                text,
            )[i] < 128,
    ensures
        vstd::utf8::encode_utf8(text).len() == text.len(),
        forall|i: int|
            0 <= i < text.len() ==> #[trigger] text[i] as u32 == vstd::utf8::encode_utf8(text)[i],
    decreases text.len(),
{
    if text.len() > 0 {
        let c = text[0] as u32;
        let first = vstd::utf8::encode_scalar(c);
        let rest = text.drop_first();
        let bytes = vstd::utf8::encode_utf8(text);
        assert(bytes == first + vstd::utf8::encode_utf8(rest));
        assert(first.len() > 0);
        assert(bytes[0] == first[0]);
        if !vstd::utf8::has_width_1_encoding(c) {
            assert(first[0] >= 128) by {
                let b = first[0];
                assert(forall|x: u8| (0xC0u8 | x) >= 128u8) by (bit_vector);
                assert(forall|x: u8| (0xE0u8 | x) >= 128u8) by (bit_vector);
                assert(forall|x: u8| (0xF0u8 | x) >= 128u8) by (bit_vector);
            }
        }
        assert(forall|x: u32| x <= 0x7F ==> ((x & 0x7F) as u8) as u32 == x) by (bit_vector);
        assert forall|i: int|
            0 <= i < vstd::utf8::encode_utf8(rest).len() implies #[trigger] vstd::utf8::encode_utf8(
            rest,
        )[i] < 128 by {
            assert(vstd::utf8::encode_utf8(rest)[i] == bytes[i + 1]);
        }
        lemma_ascii_encoding(rest);
        assert forall|i: int| 0 <= i < text.len() implies #[trigger] text[i] as u32
            == vstd::utf8::encode_utf8(text)[i] by {
            if i > 0 {
                assert(text[i] == rest[i - 1]);
                assert(bytes[i] == vstd::utf8::encode_utf8(rest)[i - 1]);
            }
        }
    }
}

/// Characters below 128 are each encoded as one byte equal to the character.
pub(crate) proof fn lemma_ascii_chars_encoding(text: Seq<char>)
    requires
        forall|i: int| 0 <= i < text.len() ==> #[trigger] text[i] as u32 <= 0x7F,
    ensures
        vstd::utf8::encode_utf8(text).len() == text.len(),
        forall|i: int|
            0 <= i < text.len() ==> #[trigger] text[i] as u32 == vstd::utf8::encode_utf8(text)[i],
    decreases text.len(),
{
    if text.len() > 0 {
        let c = text[0] as u32;
        let rest = text.drop_first();
        let bytes = vstd::utf8::encode_utf8(text);
        assert(bytes == vstd::utf8::encode_scalar(c) + vstd::utf8::encode_utf8(rest));
        assert(forall|x: u32| x <= 0x7F ==> ((x & 0x7F) as u8) as u32 == x) by (bit_vector);
        assert(text[0] as u32 <= 0x7F);
        assert forall|i: int| 0 <= i < rest.len() implies #[trigger] rest[i] as u32 <= 0x7F by {
            assert(rest[i] == text[i + 1]);
        }
        lemma_ascii_chars_encoding(rest);
        assert forall|i: int| 0 <= i < text.len() implies #[trigger] text[i] as u32
            == vstd::utf8::encode_utf8(text)[i] by {
            if i > 0 {
                assert(text[i] == rest[i - 1]);
                assert(bytes[i] == vstd::utf8::encode_utf8(rest)[i - 1]);
            }
        }
    }
}

/// A currency code is exactly three characters, each an uppercase ASCII
/// letter: character codes 65 (`A`) to 90 (`Z`).
pub proof fn lemma_currency_codes_are_uppercase_letters(text: Seq<char>)
    ensures
        valid_currency(text) <==> (text.len() == 3 && forall|i: int|
            0 <= i < 3 ==> 65 <= #[trigger] text[i] as u32 <= 90),
        'A' as u32 == 65,
        'Z' as u32 == 90,
{
    let bytes = vstd::utf8::encode_utf8(text);
    if valid_currency(text) {
        lemma_ascii_encoding(text);
        assert forall|i: int| 0 <= i < 3 implies 65 <= #[trigger] text[i] as u32 <= 90 by {
            assert(65 <= bytes[i] <= 90);
        }
    }
    if text.len() == 3 && forall|i: int| 0 <= i < 3 ==> 65 <= #[trigger] text[i] as u32 <= 90 {
        lemma_ascii_chars_encoding(text);
        assert forall|i: int| 0 <= i < bytes.len() implies 65 <= #[trigger] bytes[i] <= 90 by {
            assert(text[i] as u32 == bytes[i]);
        }
    }
}

pub fn is_valid_currency(currency: &str) -> (valid: bool)
    ensures
        valid == valid_currency(currency@),
{
    let bytes = currency.as_bytes();
    if bytes.len() != 3 {
        return false;
    }
    let mut i: usize = 0;
    while i < 3
        invariant
            bytes@.len() == 3,
            bytes@ == vstd::utf8::encode_utf8(currency@),
            0 <= i <= 3,
            forall|j: int| 0 <= j < i ==> 65 <= #[trigger] bytes@[j] <= 90,
        decreases 3 - i,
    {
        if bytes[i] < 65u8 || bytes[i] > 90u8 {
            return false;
        }
        i = i + 1;
    }
    true
}

/// What validating a create request gives: the new payment, or the first
/// rule it breaks.
pub open spec fn validated_new_payment(request: CreatePaymentRequest, id: u128, outcome: Result<
    NewPayment,
    AppError,
>) -> bool {
    if request.amount.mantissa_spec() <= 0 {
        outcome matches Err(e) && is_bad_request(e, "amount must be greater than zero"@)
    } else if request.amount.scale_spec() > 2 {
        outcome matches Err(e) && is_bad_request(
            e,
            "amount must have no more than two decimal places"@,
        )
    } else if !valid_currency(request.currency@) {
        outcome matches Err(e) && is_bad_request(
            e,
            "currency must be a three-letter uppercase ISO code"@,
        )
    } else {
        outcome == Ok::<NewPayment, AppError>(
            NewPayment {
                id,
                merchant_id: request.merchant_id,
                amount: request.amount,
                currency: request.currency,
                status: PaymentStatus::Pending,
            },
        )
    }
}

/// A create request is accepted exactly when its amount is positive with at
/// most two decimal places and its currency is three uppercase ASCII letters;
/// the payment then carries the request's merchant, amount and currency, the
/// given identifier, and starts pending. Every refusal is a bad request.
pub proof fn lemma_validation_accepts_exactly_valid_requests(
    request: CreatePaymentRequest,
    id: u128,
    outcome: Result<NewPayment, AppError>,
)
    requires
        validated_new_payment(request, id, outcome),
    ensures
        outcome is Ok <==> (request.amount.mantissa_spec() > 0 && request.amount.scale_spec() <= 2
            && request.currency@.len() == 3 && forall|i: int|
            0 <= i < 3 ==> 65 <= #[trigger] request.currency@[i] as u32 <= 90),
        outcome matches Ok(payment) ==> (payment.id == id && payment.merchant_id
            == request.merchant_id && payment.amount == request.amount && payment.currency
            == request.currency && payment.status == PaymentStatus::Pending),
        outcome matches Err(e) ==> e is BadRequest,
{
    lemma_currency_codes_are_uppercase_letters(request.currency@);
}

/// The canonical text that identifies a create request: merchant,
/// mantissa and scale of the amount, and currency, separated by `:`.
pub open spec fn request_fingerprint(request: CreatePaymentRequest) -> Seq<char> {
    decimal_text(request.merchant_id as nat) + seq![':'] + signed_decimal_text(
        request.amount.mantissa_spec(),
    ) + seq![':'] + decimal_text(request.amount.scale_spec()) + seq![':'] + request.currency@
}

/// Text on both sides of its first `:` is determined by the text.
proof fn lemma_split_at_colon(a1: Seq<char>, r1: Seq<char>, a2: Seq<char>, r2: Seq<char>)
    requires
        forall|i: int| 0 <= i < a1.len() ==> #[trigger] a1[i] != ':',
        forall|i: int| 0 <= i < a2.len() ==> #[trigger] a2[i] != ':',
        a1 + seq![':'] + r1 == a2 + seq![':'] + r2,
    ensures
        a1 == a2,
        r1 == r2,
{
    let x = a1 + seq![':'] + r1;
    let y = a2 + seq![':'] + r2;
    if a1.len() < a2.len() {
        assert(x[a1.len() as int] == ':');
        assert(y[a1.len() as int] == a2[a1.len() as int]);
    } else if a2.len() < a1.len() {
        assert(y[a2.len() as int] == ':');
        assert(x[a2.len() as int] == a1[a2.len() as int]);
    } else {
        assert(a1 =~= x.subrange(0, a1.len() as int));
        assert(a2 =~= y.subrange(0, a2.len() as int));
        assert(r1 =~= x.subrange(a1.len() as int + 1, x.len() as int));
        assert(r2 =~= y.subrange(a2.len() as int + 1, y.len() as int));
    }
}

/// The request hash identifies the request: two create requests have the
/// same hash only if they name the same merchant, the same amount with the
/// same number of decimal places, and the same currency.
pub proof fn lemma_request_hash_identifies_request(a: CreatePaymentRequest, b: CreatePaymentRequest)
    requires
        request_fingerprint(a) == request_fingerprint(b),
    ensures
        a.merchant_id == b.merchant_id,
        a.amount.mantissa_spec() == b.amount.mantissa_spec(),
        a.amount.scale_spec() == b.amount.scale_spec(),
        a.currency@ == b.currency@,
{
    let colon = seq![':'];
    let ma = decimal_text(a.merchant_id as nat);
    let mb = decimal_text(b.merchant_id as nat);
    let sa = signed_decimal_text(a.amount.mantissa_spec());
    let sb = signed_decimal_text(b.amount.mantissa_spec());
    let ka = decimal_text(a.amount.scale_spec());
    let kb = decimal_text(b.amount.scale_spec());
    lemma_decimal_text_reads_back(a.merchant_id as nat);
    lemma_decimal_text_reads_back(b.merchant_id as nat);
    lemma_decimal_text_reads_back(a.amount.scale_spec());
    lemma_decimal_text_reads_back(b.amount.scale_spec());
    lemma_signed_decimal_text_injective(a.amount.mantissa_spec(), b.amount.mantissa_spec());
    lemma_signed_decimal_text_injective(b.amount.mantissa_spec(), a.amount.mantissa_spec());
    let ra2 = ka + colon + a.currency@;
    let rb2 = kb + colon + b.currency@;
    let ra1 = sa + colon + ra2;
    let rb1 = sb + colon + rb2;
    assert(request_fingerprint(a) =~= ma + colon + ra1);
    assert(request_fingerprint(b) =~= mb + colon + rb1);
    lemma_split_at_colon(ma, ra1, mb, rb1);
    lemma_decimal_text_injective(a.merchant_id as nat, b.merchant_id as nat);
    lemma_split_at_colon(sa, ra2, sb, rb2);
    lemma_split_at_colon(ka, a.currency@, kb, b.currency@);
    lemma_decimal_text_injective(a.amount.scale_spec(), b.amount.scale_spec());
}

impl CreatePaymentRequest {
    /// The text stored with an idempotency key to recognise a retry of the
    /// same request.
    pub fn request_hash(&self) -> (hash: String)
        ensures
            hash@ == request_fingerprint(*self),
    {
        let mut hash = String::new();
        push_decimal(&mut hash, self.merchant_id);
        hash.append(":");
        push_signed_decimal(&mut hash, self.amount.mantissa());
        hash.append(":");
        push_decimal(&mut hash, self.amount.scale() as u128);
        hash.append(":");
        hash.append(self.currency.as_str());
        proof {
            reveal_strlit(":");
        }
        assert(hash@ =~= request_fingerprint(*self));
        hash
    }

    /// Validates client-controlled fields before any database query is made.
    pub fn into_new_payment(self, id: u128) -> (outcome: Result<NewPayment, AppError>)
        ensures
            validated_new_payment(self, id, outcome),
    {
        if !self.amount.is_positive() {
            return Err(AppError::bad_request("amount must be greater than zero"));
        }
        if self.amount.scale() > 2 {
            return Err(AppError::bad_request("amount must have no more than two decimal places"));
        }
        if !is_valid_currency(self.currency.as_str()) {
            return Err(AppError::bad_request("currency must be a three-letter uppercase ISO code"));
        }
        Ok(
            NewPayment {
                id,
                merchant_id: self.merchant_id,
                amount: self.amount,
                currency: self.currency,
                status: PaymentStatus::Pending,
            },
        )
    }
}

} // verus!
