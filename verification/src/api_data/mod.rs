pub mod errors;

use vstd::prelude::*;

verus! {

/// A successful answer of the `/api/query` endpoint.
///
/// It is filled in completely only where the answer's `success` field is `true`.
#[derive(Debug, Clone, PartialEq, Eq)]
pub struct QuerySuccessResponse {
    /// Whether the query succeeded; always `true` for this type.
    pub success: bool,
    /// The name of the person queried.
    pub name: String,
    /// The school the person graduated from or attends.
    pub school_name: String,
    /// The major studied.
    pub major: String,
    /// The degree level, such as "本科" or "硕士".
    pub degree_level: String,
    /// Time spent on the query, in milliseconds.
    pub elapsed: u64,
    /// The node that served the request.
    pub node_id: String,
}

/// A failed answer of the `/api/query` endpoint.
#[derive(Debug, Clone, PartialEq, Eq)]
pub struct QueryErrorResponse {
    /// Whether the query succeeded; always `false` for this type.
    pub success: bool,
    /// The error message, such as "报告已过期".
    pub message: String,
    /// Time spent on the query, in milliseconds.
    pub elapsed: u64,
}

/// Any answer of the `/api/query` endpoint: a success or a failure.
#[derive(Debug, Clone, PartialEq, Eq)]
#[non_exhaustive]
pub enum QueryResponse {
    /// The answer to a query that succeeded.
    Success(QuerySuccessResponse),
    /// The answer to a query that failed.
    Error(QueryErrorResponse),
}

/// The parameters of a request to the query endpoint.
#[derive(Debug, Clone, PartialEq, Eq)]
pub struct QueryRequest {
    /// The verification code, 12 to 16 letters and digits.
    pub code: String,
    /// The API key created in the console.
    pub api_key: String,
}

/// The data of a successful answer, or `None` for a failed one.
pub open spec fn success_part(q: QueryResponse) -> Option<QuerySuccessResponse> {
    match q {
        QueryResponse::Success(d) => Some(d),
        QueryResponse::Error(_) => None,
    }
}

/// The data of a failed answer, or `None` for a successful one.
pub open spec fn error_part(q: QueryResponse) -> Option<QueryErrorResponse> {
    match q {
        QueryResponse::Error(d) => Some(d),
        QueryResponse::Success(_) => None,
    }
}

/// Every answer is either a success or a failure, never both: `is_success()` holds
/// exactly where `success_data()` is `Some`, which is exactly where `error_data()`
/// is `None`; and the answer is rebuilt from whichever part it has.
pub proof fn law_query_response_one_part(q: QueryResponse)
    ensures
        (q is Success) <==> success_part(q) is Some,
        success_part(q) is Some <==> error_part(q) is None,
        success_part(q) matches Some(d) ==> q == QueryResponse::Success(d),
        error_part(q) matches Some(d) ==> q == QueryResponse::Error(d),
{
}

impl QueryResponse {
    /// Whether the query succeeded.
    #[must_use]
    pub fn is_success(&self) -> (r: bool)
        ensures
            r == (*self is Success),
    {
        match self {
            QueryResponse::Success(_) => true,
            QueryResponse::Error(_) => false,
        }
    }

    /// The data of a successful query, or `None` for a failed one.
    #[must_use]
    pub fn success_data(&self) -> (r: Option<&QuerySuccessResponse>)
        ensures
            match *self {
                QueryResponse::Success(d) => r == Some(&d),
                QueryResponse::Error(_) => r is None,
            },
    {
        match self {
            QueryResponse::Success(data) => Some(data),
            QueryResponse::Error(_) => None,
        }
    }

    /// The data of a successful query, to be changed in place; `None` for a failed one.
    #[must_use]
    pub fn success_data_mut(&mut self) -> (r: Option<&mut QuerySuccessResponse>)
        ensures
            match *old(self) {
                QueryResponse::Success(d) => r matches Some(m) && *m == d
                    && *final(self) == QueryResponse::Success(*final(m)),
                QueryResponse::Error(e) => r is None && *final(self) == QueryResponse::Error(e),
            },
    {
        match self {
            QueryResponse::Success(data) => Some(data),
            QueryResponse::Error(_) => None,
        }
    }

    /// The data of a failed query, or `None` for a successful one.
    #[must_use]
    pub fn error_data(&self) -> (r: Option<&QueryErrorResponse>)
        ensures
            match *self {
                QueryResponse::Error(d) => r == Some(&d),
                QueryResponse::Success(_) => r is None,
            },
    {
        match self {
            QueryResponse::Error(data) => Some(data),
            QueryResponse::Success(_) => None,
        }
    }

    /// The data of a failed query, to be changed in place; `None` for a successful one.
    #[must_use]
    pub fn error_data_mut(&mut self) -> (r: Option<&mut QueryErrorResponse>)
        ensures
            match *old(self) {
                QueryResponse::Error(d) => r matches Some(m) && *m == d
                    && *final(self) == QueryResponse::Error(*final(m)),
                QueryResponse::Success(s) => r is None && *final(self) == QueryResponse::Success(s),
            },
    {
        match self {
            QueryResponse::Error(data) => Some(data),
            QueryResponse::Success(_) => None,
        }
    }

    /// Consumes the answer and gives the data of a successful query, or `None`.
    #[must_use]
    pub fn into_success_data(self) -> (r: Option<QuerySuccessResponse>)
        ensures
            r == success_part(self),
    {
        match self {
            QueryResponse::Success(data) => Some(data),
            QueryResponse::Error(_) => None,
        }
    }

    /// Consumes the answer and gives the data of a failed query, or `None`.
    #[must_use]
    pub fn into_error_data(self) -> (r: Option<QueryErrorResponse>)
        ensures
            r == error_part(self),
    {
        match self {
            QueryResponse::Error(data) => Some(data),
            QueryResponse::Success(_) => None,
        }
    }
}

} // verus!
