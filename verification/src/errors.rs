//! The error taxonomy, from lowest to highest layer: storage failures
//! (`DbError`), migration failures (`MigrationError`), repository errors
//! (`RepoError`), application errors (`AppError`) and the
//! protocol-independent status taxonomy (`GrpcError`). Absence of a row is
//! never an error at the repository layer; it is `Option::None` there.

use vstd::prelude::*;
use vstd::string::StringExecFns;

verus! {

/// The text std's `Debug` form gives a string: quoted, with escapes; a
/// function of the characters alone.
pub uninterp spec fn debug_quoted(s: Seq<char>) -> Seq<char>;

/// Relies on `str`'s `Debug` impl, through `format!`.
#[verifier::external_body]
fn quote_debug(s: &str) -> (r: String)
    ensures
        r@ == debug_quoted(s@),
{
    format!("{:?}", s)
}

/// Failure to reach or to query the backing store.
#[derive(Debug)]
pub enum DbError {
    /// A connection could not be checked out of the pool.
    ConnectionError(String),
    /// A query was sent and failed; the driver's message is kept.
    QueryError(String),
}

impl DbError {
    /// Display text of each variant.
    pub open spec fn message_spec(&self) -> Seq<char> {
        match self {
            DbError::ConnectionError(s) => "Failed to get a connection from the pool: "@ + s@,
            DbError::QueryError(s) => "Failed to run query: "@ + s@,
        }
    }

    /// Debug text of each variant: the variant's name around the quoted
    /// payload.
    pub open spec fn debug_spec(&self) -> Seq<char> {
        match self {
            DbError::ConnectionError(s) => "ConnectionError("@ + debug_quoted(s@) + ")"@,
            DbError::QueryError(s) => "QueryError("@ + debug_quoted(s@) + ")"@,
        }
    }

    pub fn debug_text(&self) -> (r: String)
        ensures
            r@ == self.debug_spec(),
    {
        match self {
            DbError::ConnectionError(s) => {
                String::from_str("ConnectionError(").concat(quote_debug(s.as_str()).as_str())
                    .concat(")")
            },
            DbError::QueryError(s) => {
                String::from_str("QueryError(").concat(quote_debug(s.as_str()).as_str()).concat(
                    ")",
                )
            },
        }
    }

    pub fn message(&self) -> (r: String)
        ensures
            r@ == self.message_spec(),
    {
        match self {
            DbError::ConnectionError(s) => {
                String::from_str("Failed to get a connection from the pool: ").concat(s.as_str())
            },
            DbError::QueryError(s) => {
                String::from_str("Failed to run query: ").concat(s.as_str())
            },
        }
    }
}

/// Failure while preparing the schema.
#[derive(Debug)]
pub enum MigrationError {
    MigrationFailed(String),
}

impl MigrationError {
    /// Display text of each variant.
    pub open spec fn message_spec(&self) -> Seq<char> {
        match self {
            MigrationError::MigrationFailed(s) => "Failed to run migrations: "@ + s@,
        }
    }

    pub fn message(&self) -> (r: String)
        ensures
            r@ == self.message_spec(),
    {
        match self {
            MigrationError::MigrationFailed(s) => {
                String::from_str("Failed to run migrations: ").concat(s.as_str())
            },
        }
    }
}

/// What a repository operation can surface: a wrapped storage failure or
/// an unknown condition. A missing row is represented by the operations
/// themselves as `None`, never as a `RepoError`.
#[derive(Debug)]
pub enum RepoError {
    DbError(DbError),
    UserNotFound,
    Unknown(String),
}

impl core::convert::From<DbError> for RepoError {
    fn from(e: DbError) -> (r: RepoError) {
        RepoError::DbError(e)
    }
}

impl vstd::std_specs::convert::FromSpecImpl<DbError> for RepoError {
    open spec fn obeys_from_spec() -> bool {
        true
    }

    open spec fn from_spec(e: DbError) -> RepoError {
        RepoError::DbError(e)
    }
}

/// Application-level failures outside the repository path.
#[derive(Debug)]
pub enum AppError {
    DbError(DbError),
    ValidationError(String),
    Other(String),
}

impl core::convert::From<DbError> for AppError {
    fn from(e: DbError) -> (r: AppError) {
        AppError::DbError(e)
    }
}

impl vstd::std_specs::convert::FromSpecImpl<DbError> for AppError {
    open spec fn obeys_from_spec() -> bool {
        true
    }

    open spec fn from_spec(e: DbError) -> AppError {
        AppError::DbError(e)
    }
}

/// The status taxonomy every domain error is mapped to before it leaves
/// the service layer. Each variant carries a short, non-leaking message.
#[derive(Debug)]
pub enum GrpcError {
    InvalidArgument(String),
    NotFound(String),
    AlreadyExists(String),
    Internal(String),
    Unknown(String),
}

/// The bare status code of a `GrpcError`, for callers that only need to
/// branch on the kind of failure.
#[derive(Clone, Copy, Debug, PartialEq, Eq, Structural)]
pub enum StatusCode {
    InvalidArgument,
    NotFound,
    AlreadyExists,
    Internal,
    Unknown,
}

impl GrpcError {
    pub open spec fn code_spec(&self) -> StatusCode {
        match self {
            GrpcError::InvalidArgument(_) => StatusCode::InvalidArgument,
            GrpcError::NotFound(_) => StatusCode::NotFound,
            GrpcError::AlreadyExists(_) => StatusCode::AlreadyExists,
            GrpcError::Internal(_) => StatusCode::Internal,
            GrpcError::Unknown(_) => StatusCode::Unknown,
        }
    }

    pub fn code(&self) -> (r: StatusCode)
        ensures
            r == self.code_spec(),
    {
        match self {
            GrpcError::InvalidArgument(_) => StatusCode::InvalidArgument,
            GrpcError::NotFound(_) => StatusCode::NotFound,
            GrpcError::AlreadyExists(_) => StatusCode::AlreadyExists,
            GrpcError::Internal(_) => StatusCode::Internal,
            GrpcError::Unknown(_) => StatusCode::Unknown,
        }
    }

    pub open spec fn message_view(&self) -> Seq<char> {
        match self {
            GrpcError::InvalidArgument(m) => m@,
            GrpcError::NotFound(m) => m@,
            GrpcError::AlreadyExists(m) => m@,
            GrpcError::Internal(m) => m@,
            GrpcError::Unknown(m) => m@,
        }
    }

    pub fn message(&self) -> (r: &str)
        ensures
            r@ == self.message_view(),
    {
        match self {
            GrpcError::InvalidArgument(m) => m.as_str(),
            GrpcError::NotFound(m) => m.as_str(),
            GrpcError::AlreadyExists(m) => m.as_str(),
            GrpcError::Internal(m) => m.as_str(),
            GrpcError::Unknown(m) => m.as_str(),
        }
    }

    /// The single seam through which repository failures become
    /// user-visible failures: a pure, total mapping. A storage failure
    /// carries the error's debug text.
    pub fn from_repo(e: RepoError) -> (r: GrpcError)
        ensures
            e matches RepoError::DbError(d) ==> r matches GrpcError::Internal(m)
                && m@ == "Database error: "@ + d.debug_spec(),
            e matches RepoError::UserNotFound ==> r matches GrpcError::NotFound(m)
                && m@ == "User not found"@,
            e matches RepoError::Unknown(s) ==> r matches GrpcError::Unknown(m)
                && m@ == "Unknown error: "@ + s@,
    {
        match e {
            RepoError::DbError(d) => {
                let detail = d.debug_text();
                GrpcError::Internal(String::from_str("Database error: ").concat(detail.as_str()))
            },
            RepoError::UserNotFound => GrpcError::NotFound(String::from_str("User not found")),
            RepoError::Unknown(s) => {
                GrpcError::Unknown(String::from_str("Unknown error: ").concat(s.as_str()))
            },
        }
    }
}

} // verus!
