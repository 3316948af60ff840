//! Rows of the `payments` table.

use vstd::prelude::*;

use crate::models::amount::Amount;
use crate::models::payment::{status_named, Payment, PaymentStatus, PaymentStatusParseError};

verus! {

/// A row of the `payments` table, with the status as stored text.
#[derive(Debug)]
pub struct PaymentRow {
    pub id: u128,
    pub merchant_id: u128,
    pub amount: Amount,
    pub currency: String,
    pub status: String,
    pub created_at_micros: i64,
    pub updated_at_micros: i64,
}

impl PaymentRow {
    /// The payment that the row stores, or the error for a status text that
    /// names no lifecycle state.
    pub fn into_payment(self) -> (payment: Result<Payment, PaymentStatusParseError>)
        ensures
            match status_named(self.status@) {
                Some(status) => payment == Ok::<Payment, PaymentStatusParseError>(
                    Payment {
                        id: self.id,
                        merchant_id: self.merchant_id,
                        amount: self.amount,
                        currency: self.currency,
                        status,
                        created_at_micros: self.created_at_micros,
                        updated_at_micros: self.updated_at_micros,
                    },
                ),
                None => payment matches Err(error) && error.rejected() == self.status@,
            },
    {
        let status = match PaymentStatus::try_from(self.status.as_str()) {
            Ok(status) => status,
            Err(error) => return Err(error),
        };
        Ok(
            Payment {
                id: self.id,
                merchant_id: self.merchant_id,
                amount: self.amount,
                currency: self.currency,
                status,
                created_at_micros: self.created_at_micros,
                updated_at_micros: self.updated_at_micros,
            },
        )
    }
}

} // verus!
