//! Bodies of the service's informational endpoints.

use vstd::prelude::*;

use crate::errors::AppError;

verus! {

/// The body of the liveness and readiness endpoints.
#[derive(Debug)]
pub struct HealthResponse {
    pub status: &'static str,
}

/// The body of the service metadata endpoint.
#[derive(Debug)]
pub struct RootResponse {
    pub service: &'static str,
    pub version: &'static str,
}

/// Liveness: the HTTP process is running.
pub fn health() -> (response: HealthResponse)
    ensures
        response.status@ == "healthy"@,
{
    HealthResponse { status: "healthy" }
}

/// Readiness, from whether the database answered and then whether Redis
/// answered.
pub fn ready(database_reachable: bool, redis_reachable: bool) -> (answer: Result<
    HealthResponse,
    AppError,
>)
    ensures
        database_reachable && redis_reachable ==> (answer matches Ok(response)
            && response.status@ == "ready"@),
        !(database_reachable && redis_reachable) ==> answer == Err::<HealthResponse, AppError>(
            AppError::Internal,
        ),
{
    if !database_reachable || !redis_reachable {
        return Err(AppError::Internal);
    }
    Ok(HealthResponse { status: "ready" })
}

/// Service metadata: the service's name and the given version.
pub fn root(version: &'static str) -> (response: RootResponse)
    ensures
        response.service@ == "payment-service"@,
        response.version == version,
{
    RootResponse { service: "payment-service", version }
}

} // verus!
