use vstd::prelude::*;

verus! {

/// HTTP status of a request that failed validation.
pub const BAD_REQUEST: u16 = 400;

/// HTTP status of a lookup that matched nothing.
pub const NOT_FOUND: u16 = 404;

/// HTTP status of any other failure.
pub const INTERNAL_SERVER_ERROR: u16 = 500;

/// What the store reported when a statement failed.
#[derive(Clone, Debug, PartialEq, Eq)]
pub enum StoreError {
    /// A statement that must return one row returned none.
    RowNotFound,
    /// Any other failure, with the store's own description of it.
    Failure(String),
}

/// Failures of the company operations, as callers see them.
#[derive(Clone, Debug, PartialEq, Eq)]
pub enum CompanyError {
    ValidationError(String),
    NotFound,
    /// Anything else; the text is kept for the server's log and never sent.
    UnexpectedError(String),
}

impl StoreError {
    pub open spec fn description(self) -> Seq<char> {
        match self {
            StoreError::RowNotFound => "no rows returned by a query that expected to return at least one row"@,
            StoreError::Failure(m) => m@,
        }
    }

    fn describe(&self) -> (r: &str)
        ensures
            r@ == self.description(),
    {
        match self {
            StoreError::RowNotFound => "no rows returned by a query that expected to return at least one row",
            StoreError::Failure(m) => m.as_str(),
        }
    }
}

/// The diagnostic text of an unexpected failure: what was being done, then
/// what the store said.
pub open spec fn diagnostic(context: Seq<char>, cause: StoreError) -> Seq<char> {
    context + ": "@ + cause.description()
}

impl CompanyError {
    /// Wraps a store failure as an unexpected error that records `context`.
    pub fn unexpected(context: &str, cause: &StoreError) -> (r: Self)
        ensures
            r is UnexpectedError,
            r->UnexpectedError_0@ == diagnostic(context@, *cause),
    {
        let mut m = String::from_str(context);
        m.append(": ");
        m.append(cause.describe());
        CompanyError::UnexpectedError(m)
    }

    pub open spec fn status(self) -> u16 {
        match self {
            CompanyError::ValidationError(_) => BAD_REQUEST,
            CompanyError::NotFound => NOT_FOUND,
            CompanyError::UnexpectedError(_) => INTERNAL_SERVER_ERROR,
        }
    }

    /// The HTTP status this error is answered with.
    pub fn status_code(&self) -> (r: u16)
        ensures
            r == self.status(),
    {
        match self {
            CompanyError::ValidationError(_) => BAD_REQUEST,
            CompanyError::NotFound => NOT_FOUND,
            CompanyError::UnexpectedError(_) => INTERNAL_SERVER_ERROR,
        }
    }
}

} // verus!
