//! Decisions of the payment service: what to do next after each database,
//! lock or decoding step, and how each outcome is answered.

pub mod creation_attempt;
pub mod payment_service;
pub mod replay;
pub mod transition_attempt;
