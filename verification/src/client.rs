//! How an answer of the API is turned into a result: the HTTP status first,
//! then the GraphQL envelope.

use vstd::prelude::*;
use crate::error::CliError;
use crate::text::{parse_u64, spec_parse_u64, string_views};

verus! {

/// The endpoint requests go to unless another is configured.
pub const DEFAULT_ENDPOINT: &'static str = "https://api.linear.app/graphql";

/// The `User-Agent` the client sends: `linear-wp/` and the program's version.
pub fn user_agent(version: &str) -> (r: String)
    ensures
        r@ == "linear-wp/"@ + version@,
{
    let mut s = "linear-wp/".to_owned();
    s.append(version);
    s
}

/// One error of a GraphQL answer.
#[derive(Debug, Clone, PartialEq, Eq)]
pub struct GraphqlError {
    pub message: String,
}

/// What an HTTP status means for a request.
#[derive(Debug, Clone, Copy, PartialEq, Eq)]
pub enum StatusClass {
    /// 429: the caller must wait (the `Retry-After` header says how long).
    RateLimited,
    /// 401 or 403: the key was refused (the body explains).
    Unauthorized,
    /// Any other status outside 200..=299 (the body explains).
    Failed,
    /// 200..=299: the body holds the GraphQL answer.
    Success,
}

pub open spec fn spec_status_class(status: u16) -> StatusClass {
    if status == 429 {
        StatusClass::RateLimited
    } else if status == 401 || status == 403 {
        StatusClass::Unauthorized
    } else if !(200 <= status && status <= 299) {
        StatusClass::Failed
    } else {
        StatusClass::Success
    }
}

/// Classify an HTTP status, in the order the client checks them.
pub fn classify_status(status: u16) -> (r: StatusClass)
    ensures
        r == spec_status_class(status),
{
    if status == 429 {
        StatusClass::RateLimited
    } else if status == 401 || status == 403 {
        StatusClass::Unauthorized
    } else if !(200 <= status && status <= 299) {
        StatusClass::Failed
    } else {
        StatusClass::Success
    }
}

/// The error for a refused request, from the status, the `Retry-After`
/// header (when it was readable text) and the body; `None` when the status is
/// a success. A `Retry-After` that is not a whole number of seconds is
/// reported as unknown.
pub fn status_error(status: u16, retry_after: Option<&str>, body: String) -> (r: Option<CliError>)
    ensures
        match spec_status_class(status) {
            StatusClass::RateLimited => r == Some(
                CliError::RateLimited {
                    retry_after: match retry_after {
                        Some(v) => spec_parse_u64(v@),
                        None => None,
                    },
                },
            ),
            StatusClass::Unauthorized => r == Some(CliError::AuthError(body)),
            StatusClass::Failed => r == Some(CliError::HttpError { status, body }),
            StatusClass::Success => r.is_none(),
        },
{
    match classify_status(status) {
        StatusClass::RateLimited => {
            let secs = match retry_after {
                Some(v) => parse_u64(v),
                None => None,
            };
            Some(CliError::RateLimited { retry_after: secs })
        },
        StatusClass::Unauthorized => Some(CliError::AuthError(body)),
        StatusClass::Failed => Some(CliError::HttpError { status, body }),
        StatusClass::Success => None,
    }
}

pub open spec fn messages(errors: Seq<GraphqlError>) -> Seq<Seq<char>> {
    errors.map_values(|e: GraphqlError| e.message@)
}

/// Whether a GraphQL answer failed outright: it has errors and no data.
pub open spec fn failed_outright<T>(data: Option<T>, errors: Option<Vec<GraphqlError>>) -> bool {
    &&& errors matches Some(es)
    &&& es.len() > 0
    &&& data is None
}

/// The result of a GraphQL answer with `data` and `errors`: errors without
/// data fail with their messages; otherwise the data, and `NoData` when there
/// is none. Errors that come with data are partial and do not fail.
pub fn graphql_outcome<T>(data: Option<T>, errors: Option<Vec<GraphqlError>>) -> (r: Result<T, CliError>)
    ensures
        failed_outright(data, errors) ==> (r matches Err(CliError::GraphQlErrors(ms))
            && string_views(ms@) == messages(errors->0@)),
        !failed_outright(data, errors) ==> r == (match data {
            Some(d) => Ok::<T, CliError>(d),
            None => Err::<T, CliError>(CliError::NoData),
        }),
{
    if let Some(es) = &errors {
        if es.len() > 0 && data.is_none() {
            let mut ms: Vec<String> = Vec::new();
            let mut i: usize = 0;
            while i < es.len()
                invariant
                    i <= es.len(),
                    ms@.len() == i,
                    forall|j: int| 0 <= j < i ==> #[trigger] ms@[j]@ == es@[j].message@,
                decreases es.len() - i,
            {
                ms.push(es[i].message.clone());
                i += 1;
            }
            assert(string_views(ms@) =~= messages(es@));
            return Err(CliError::GraphQlErrors(ms));
        }
    }
    match data {
        Some(d) => Ok(d),
        None => Err(CliError::NoData),
    }
}

} // verus!
