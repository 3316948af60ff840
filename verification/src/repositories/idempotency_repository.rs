//! Rows of the `idempotency_keys` table.

use vstd::prelude::*;

verus! {

/// A claimed idempotency key: the request that claimed it and, once the
/// request completed, the response to replay (its JSON text and status code).
#[derive(Debug, Clone)]
pub struct IdempotencyRecord {
    pub request_hash: String,
    pub response_body: Option<String>,
    pub status_code: Option<i16>,
}

} // verus!
