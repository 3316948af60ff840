//! Records as the database stores them.

pub mod idempotency_repository;
pub mod payment_repository;
