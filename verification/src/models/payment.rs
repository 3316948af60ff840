//! The payment lifecycle.

use vstd::prelude::*;

use crate::models::amount::Amount;
use crate::text::{join2, str_eq};

verus! {

/// The allowed lifecycle states of a payment.
#[derive(Debug, Clone, Copy, PartialEq, Eq, Structural)]
pub enum PaymentStatus {
    Pending,
    Processing,
    Succeeded,
    Failed,
}

/// The text by which a status is stored and shown.
pub open spec fn status_text(status: PaymentStatus) -> Seq<char> {
    match status {
        PaymentStatus::Pending => "pending"@,
        PaymentStatus::Processing => "processing"@,
        PaymentStatus::Succeeded => "succeeded"@,
        PaymentStatus::Failed => "failed"@,
    }
}

/// The lifecycle relation: `pending -> processing -> succeeded | failed`.
pub open spec fn transition_allowed(from: PaymentStatus, to: PaymentStatus) -> bool {
    ||| from == PaymentStatus::Pending && to == PaymentStatus::Processing
    ||| from == PaymentStatus::Processing && to == PaymentStatus::Succeeded
    ||| from == PaymentStatus::Processing && to == PaymentStatus::Failed
}

/// The status that `text` names, if any.
pub open spec fn status_named(text: Seq<char>) -> Option<PaymentStatus> {
    if text == "pending"@ {
        Some(PaymentStatus::Pending)
    } else if text == "processing"@ {
        Some(PaymentStatus::Processing)
    } else if text == "succeeded"@ {
        Some(PaymentStatus::Succeeded)
    } else if text == "failed"@ {
        Some(PaymentStatus::Failed)
    } else {
        None
    }
}

/// Position of a status along the lifecycle; every allowed transition
/// moves strictly forward.
pub open spec fn lifecycle_rank(status: PaymentStatus) -> int {
    match status {
        PaymentStatus::Pending => 0,
        PaymentStatus::Processing => 1,
        PaymentStatus::Succeeded => 2,
        PaymentStatus::Failed => 2,
    }
}

/// A status with no allowed successor.
pub open spec fn is_terminal(status: PaymentStatus) -> bool {
    forall|next: PaymentStatus| !transition_allowed(status, next)
}

/// Parsing the stored text of a status gives that status back, and the only
/// text that parses to a status is its stored text.
pub proof fn lemma_status_text_round_trip(status: PaymentStatus, text: Seq<char>)
    ensures
        status_named(status_text(status)) == Some(status),
        status_named(text) == Some(status) ==> text == status_text(status),
{
    reveal_strlit("pending");
    reveal_strlit("processing");
    reveal_strlit("succeeded");
    reveal_strlit("failed");
    assert("pending"@.len() == 7);
    assert("processing"@.len() == 10);
    assert("succeeded"@.len() == 9);
    assert("failed"@.len() == 6);
}

/// The lifecycle only moves forward: no status moves to itself, each
/// allowed transition raises the rank, succeeded and failed are terminal,
/// and pending is the only status with no predecessor besides itself.
pub proof fn lemma_lifecycle_moves_forward(from: PaymentStatus, to: PaymentStatus)
    ensures
        transition_allowed(from, to) ==> lifecycle_rank(from) < lifecycle_rank(to),
        !transition_allowed(from, from),
        is_terminal(PaymentStatus::Succeeded),
        is_terminal(PaymentStatus::Failed),
        !transition_allowed(from, PaymentStatus::Pending),
        transition_allowed(from, to) ==> !transition_allowed(to, from),
{
}

/// The allowed transitions are exactly pending to processing, processing to
/// succeeded and processing to failed: a pending payment can only start
/// processing, a processing payment can only succeed or fail, and nothing
/// leaves succeeded or failed.
pub proof fn lemma_allowed_transitions_are_exactly_the_lifecycle(
    from: PaymentStatus,
    to: PaymentStatus,
)
    ensures
        transition_allowed(from, to) <==> (from == PaymentStatus::Pending && to
            == PaymentStatus::Processing) || (from == PaymentStatus::Processing && to
            == PaymentStatus::Succeeded) || (from == PaymentStatus::Processing && to
            == PaymentStatus::Failed),
        transition_allowed(PaymentStatus::Pending, to) ==> to == PaymentStatus::Processing,
        transition_allowed(PaymentStatus::Processing, to) ==> to == PaymentStatus::Succeeded || to
            == PaymentStatus::Failed,
        transition_allowed(from, PaymentStatus::Processing) ==> from == PaymentStatus::Pending,
        !transition_allowed(PaymentStatus::Succeeded, to),
        !transition_allowed(PaymentStatus::Failed, to),
{
}

/// Each status is stored as its lowercase English name.
pub proof fn lemma_status_names(status: PaymentStatus)
    ensures
        status == PaymentStatus::Pending ==> status_text(status) == "pending"@,
        status == PaymentStatus::Processing ==> status_text(status) == "processing"@,
        status == PaymentStatus::Succeeded ==> status_text(status) == "succeeded"@,
        status == PaymentStatus::Failed ==> status_text(status) == "failed"@,
{
}

impl PaymentStatus {
    pub fn as_str(self) -> (text: &'static str)
        ensures
            text@ == status_text(self),
    {
        match self {
            PaymentStatus::Pending => "pending",
            PaymentStatus::Processing => "processing",
            PaymentStatus::Succeeded => "succeeded",
            PaymentStatus::Failed => "failed",
        }
    }

    /// Returns whether one lifecycle state may move directly to another.
    pub fn can_transition_to(self, next: PaymentStatus) -> (allowed: bool)
        ensures
            allowed == transition_allowed(self, next),
    {
        match (self, next) {
            (PaymentStatus::Pending, PaymentStatus::Processing) => true,
            (PaymentStatus::Processing, PaymentStatus::Succeeded) => true,
            (PaymentStatus::Processing, PaymentStatus::Failed) => true,
            _ => false,
        }
    }
}

/// A stored status text that names no lifecycle state.
#[derive(Debug)]
pub struct PaymentStatusParseError(String);

impl PaymentStatusParseError {
    /// The text that could not be parsed.
    pub closed spec fn rejected(&self) -> Seq<char> {
        self.0@
    }
}

impl PaymentStatusParseError {
    /// The message shown for this error.
    pub fn message(&self) -> (text: String)
        ensures
            text@ == "unknown payment status: "@ + self.rejected(),
    {
        join2("unknown payment status: ", self.0.as_str())
    }
}

/// The durable payment record represented by the `payments` table.
/// Identifiers are UUIDs as 128-bit integers; timestamps are microseconds
/// since the Unix epoch.
#[derive(Debug, Clone)]
pub struct Payment {
    pub id: u128,
    pub merchant_id: u128,
    pub amount: Amount,
    pub currency: String,
    pub status: PaymentStatus,
    pub created_at_micros: i64,
    pub updated_at_micros: i64,
}

/// Data required to insert a newly-created payment.
#[derive(Debug, Clone)]
pub struct NewPayment {
    pub id: u128,
    pub merchant_id: u128,
    pub amount: Amount,
    pub currency: String,
    pub status: PaymentStatus,
}

impl NewPayment {
    /// A copy of this payment, field for field.
    pub fn duplicate(&self) -> (copy: NewPayment)
        ensures
            copy == *self,
    {
        NewPayment {
            id: self.id,
            merchant_id: self.merchant_id,
            amount: self.amount,
            currency: self.currency.clone(),
            status: self.status,
        }
    }
}

impl Payment {
    /// A copy of this payment, field for field.
    pub fn duplicate(&self) -> (copy: Payment)
        ensures
            copy == *self,
    {
        Payment {
            id: self.id,
            merchant_id: self.merchant_id,
            amount: self.amount,
            currency: self.currency.clone(),
            status: self.status,
            created_at_micros: self.created_at_micros,
            updated_at_micros: self.updated_at_micros,
        }
    }
}

impl<'a> TryFrom<&'a str> for PaymentStatus {
    type Error = PaymentStatusParseError;

    fn try_from(value: &'a str) -> (parsed: Result<PaymentStatus, PaymentStatusParseError>)
        ensures
            match status_named(value@) {
                Some(status) => parsed == Ok::<PaymentStatus, PaymentStatusParseError>(status),
                None => parsed matches Err(error) && error.rejected() == value@,
            },
    {
        if str_eq(value, "pending") {
            Ok(PaymentStatus::Pending)
        } else if str_eq(value, "processing") {
            Ok(PaymentStatus::Processing)
        } else if str_eq(value, "succeeded") {
            Ok(PaymentStatus::Succeeded)
        } else if str_eq(value, "failed") {
            Ok(PaymentStatus::Failed)
        } else {
            Err(PaymentStatusParseError(value.to_owned()))
        }
    }
}

impl<'a> vstd::std_specs::convert::TryFromSpecImpl<&'a str> for PaymentStatus {
    /// The rejected text is owned by the error, so no spec value stands for
    /// it; `try_from` states its result in its own `ensures` instead.
    open spec fn obeys_try_from_spec() -> bool {
        false
    }

    open spec fn try_from_spec(value: &'a str) -> Result<PaymentStatus, PaymentStatusParseError> {
        match status_named(value@) {
            Some(status) => Ok(status),
            None => Err(vstd::pervasive::arbitrary()),
        }
    }
}

} // verus!
