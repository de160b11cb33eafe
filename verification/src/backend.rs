//! The storage backend a request runs against.
use vstd::prelude::*;
use crate::api_error::{ApiError, ApiErrorKind};

verus! {

/// The configured storage backend.
#[derive(Clone, Copy, Debug, PartialEq, Eq)]
pub enum DatabaseBackend {
    Sqlite,
    Postgres,
}

/// Message of the error for a PostgreSQL backend without a pool.
pub const POSTGRES_POOL_MISSING: &'static str = "postgres pool is not configured";

/// The label a backend is recorded under.
pub fn backend_label(backend: DatabaseBackend) -> (label: &'static str)
    ensures
        label@ == match backend {
            DatabaseBackend::Sqlite => "sqlite"@,
            DatabaseBackend::Postgres => "postgres"@,
        },
{
    match backend {
        DatabaseBackend::Sqlite => "sqlite",
        DatabaseBackend::Postgres => "postgres",
    }
}

/// Checks that a request can run on `backend`: SQLite always can;
/// PostgreSQL needs a configured pool, else the request fails with an
/// internal error.
pub fn resolve_backend(backend: DatabaseBackend, postgres_pool_configured: bool) -> (res: Result<
    DatabaseBackend,
    ApiError,
>)
    ensures
        res is Ok <==> (backend == DatabaseBackend::Sqlite || postgres_pool_configured),
        res matches Ok(b) ==> b == backend,
        res matches Err(e) ==> e.kind == ApiErrorKind::Internal && e.message@
            == POSTGRES_POOL_MISSING@,
{
    match backend {
        DatabaseBackend::Sqlite => Ok(DatabaseBackend::Sqlite),
        DatabaseBackend::Postgres => {
            if postgres_pool_configured {
                Ok(DatabaseBackend::Postgres)
            } else {
                Err(ApiError::internal(POSTGRES_POOL_MISSING))
            }
        },
    }
}

} // verus!
