//! Verified core of a payment service: the payment lifecycle, request
//! validation, configuration parsing, error mapping and the decision
//! logic of idempotent payment creation and status transitions.
//!
//! Every I/O step (HTTP, PostgreSQL, Redis, the clock) is performed by the
//! caller; the functions here decide what happens next from the results.

pub mod text;
pub mod config;
pub mod decimal;
pub mod errors;
pub mod handlers;
pub mod ids;
pub mod models;
pub mod repositories;
pub mod services;
