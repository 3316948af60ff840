//! Domain types of the payment service.

pub mod amount;
pub mod payment;
pub mod requests;
