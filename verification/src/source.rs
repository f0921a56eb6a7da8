//! The canonical record source: what is asked of the remote row store, and
//! what is made of its answer.

use vstd::prelude::*;
use vstd::string::StringExecFns;
use crate::records::CanonicalRecord;

verus! {

/// What the address of a project's row store starts with.
pub const HOST_PREFIX: &'static str = "https://";

/// What follows the project identifier in the address: the host's domain,
/// the table, the columns asked for, and the bound on the page.
pub const QUERY: &'static str =
    ".supabase.co/rest/v1/converted_leads?select=id,converted_lead_email,created_at,account_name&limit=5";

/// What the authorization header holds before the access key.
pub const BEARER: &'static str = "Bearer ";

/// The address that the records are fetched from.
pub open spec fn source_url(project_id: Seq<char>) -> Seq<char> {
    HOST_PREFIX@ + project_id + QUERY@
}

/// The value of the authorization header.
pub open spec fn bearer_token(access_key: Seq<char>) -> Seq<char> {
    BEARER@ + access_key
}

/// Whether an HTTP status reports success.
pub open spec fn is_success(status: u16) -> bool {
    200 <= status <= 299
}

/// The request for the canonical records: a GET of `url` with the headers
/// `apikey` and `Authorization`.
#[derive(Debug, PartialEq, Eq)]
pub struct SourceRequest {
    pub url: String,
    pub api_key: String,
    pub authorization: String,
}

/// Why the canonical records could not be had.
#[derive(Debug, PartialEq, Eq)]
pub enum FetchError {
    /// The row store answered with a status that is no success.
    RequestFailed { status: u16 },
    /// The body is not a list of records of the expected shape.
    Malformed { detail: String },
}

/// Builds the request for the records of project `project_id`,
/// authenticated with `access_key`.
pub fn source_request(project_id: &str, access_key: &str) -> (request: SourceRequest)
    ensures
        request.url@ == source_url(project_id@),
        request.api_key@ == access_key@,
        request.authorization@ == bearer_token(access_key@),
{
    SourceRequest {
        url: String::from_str(HOST_PREFIX).concat(project_id).concat(QUERY),
        api_key: String::from_str(access_key),
        authorization: String::from_str(BEARER).concat(access_key),
    }
}

/// Judges the answer of the row store. The status is looked at first: a
/// status that is no success fails the fetch whatever the body holds. With
/// a success status, the records parsed from the body are handed on, and a
/// body that could not be parsed fails the fetch with the parser's words.
pub fn accept_response(status: u16, parsed: Result<Vec<CanonicalRecord>, String>) -> (r: Result<
    Vec<CanonicalRecord>,
    FetchError,
>)
    ensures
        match r {
            Ok(records) => is_success(status) && parsed == Ok::<Vec<CanonicalRecord>, String>(
                records,
            ),
            Err(FetchError::RequestFailed { status: answered }) => !is_success(status) && answered
                == status,
            Err(FetchError::Malformed { detail }) => is_success(status) && parsed == Err::<
                Vec<CanonicalRecord>,
                String,
            >(detail),
        },
{
    if status < 200 || status > 299 {
        return Err(FetchError::RequestFailed { status });
    }
    match parsed {
        Ok(records) => Ok(records),
        Err(detail) => Err(FetchError::Malformed { detail }),
    }
}

} // verus!
