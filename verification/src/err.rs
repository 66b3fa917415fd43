//! Errors of the low-level API client and of the high-level brain client.
use crate::text::decimal;
use crate::text::u64_text;
use vstd::prelude::*;
use vstd::string::*;

verus! {

/// `reqwest::Error`, carried through as an opaque value.
#[verifier::external_type_specification]
#[verifier::external_body]
pub struct ExReqwestError(reqwest::Error);

/// `serde_json::Error`, carried through as an opaque value.
#[verifier::external_type_specification]
#[verifier::external_body]
pub struct ExSerdeJsonError(serde_json::Error);

/// `std::io::Error`, carried through as an opaque value.
#[verifier::external_type_specification]
#[verifier::external_body]
pub struct ExIoError(std::io::Error);

/// `polars::error::PolarsError`, carried through as an opaque value.
#[verifier::external_type_specification]
#[verifier::external_body]
pub struct ExPolarsError(polars::error::PolarsError);

/// Errors of the high-level brain client.
#[derive(Debug)]
pub enum BrainClientError {
    ApiClientError(ApiClientError),
    CredentialsNotFound(),
    ReadCredentialsFailed(),
    SaveCredentialsFailed(),
    DeserializeError(serde_json::Error),
    FileReadError(std::io::Error),
    LoginFailed(),
    DFERROR(polars::error::PolarsError),
    NotFoundField(String),
}

/// API client errors.
#[derive(Debug)]
pub enum ApiClientError {
    ReqwestErr(reqwest::Error),
    ResponseError { api_name: String, status: StatusCodeDisplay },
    SerdeError(serde_json::Error),
    UrlError(url::ParseError),
    BussinessError(String, String),
    MaxRetriesExceeded,
}

/// The HTTP status of a failed answer, if the failure had one.
#[derive(Debug)]
pub struct StatusCodeDisplay(pub Option<u16>);

/// The reason phrase that `http` registers for a status code.
pub uninterp spec fn status_reason(code: u16) -> Option<Seq<char>>;

/// The canonical reason phrase of `code` ("Not Found" for 404).
///
/// Calls `reqwest::StatusCode::canonical_reason` on the status built by
/// `StatusCode::from_u16`. The contract claims that the phrase depends on the
/// code alone (named `status_reason`) and, as `from_u16` refuses codes outside
/// 100..=999, that such codes have none; the table itself is not restated.
#[verifier::external_body]
pub(crate) fn canonical_reason(code: u16) -> (res: Option<&'static str>)
    ensures
        res is Some <==> status_reason(code) is Some,
        res matches Some(r) ==> status_reason(code) == Some(r@),
        !(100 <= code <= 999) ==> res is None,
{
    match reqwest::StatusCode::from_u16(code) {
        Ok(status) => status.canonical_reason(),
        Err(_) => None,
    }
}

/// What a status code prints as: its number, a space and its reason phrase.
pub open spec fn status_line(code: u16) -> Seq<char> {
    decimal(code as nat) + seq![' '] + match status_reason(code) {
        Some(r) => r,
        None => "<unknown status code>"@,
    }
}

impl StatusCodeDisplay {
    /// The text that describes the status: "404 Not Found", or a note that
    /// there was no status (such as on a time-out).
    pub fn text(&self) -> (s: String)
        ensures
            match self.0 {
                Some(code) => s@ == status_line(code),
                None => s@ == "无状态码(可能是网络超时)"@,
            },
    {
        match self.0 {
            Some(code) => {
                let mut s = u64_text(code as u64);
                s.append(" ");
                proof {
                    reveal_strlit(" ");
                }
                match canonical_reason(code) {
                    Some(r) => s.append(r),
                    None => {
                        s.append("<unknown status code>");
                    },
                }
                s
            },
            None => String::from_str("无状态码(可能是网络超时)"),
        }
    }
}

impl From<Option<u16>> for StatusCodeDisplay {
    fn from(status: Option<u16>) -> (r: Self) {
        StatusCodeDisplay(status)
    }
}

impl vstd::std_specs::convert::FromSpecImpl<Option<u16>> for StatusCodeDisplay {
    open spec fn obeys_from_spec() -> bool {
        true
    }

    open spec fn from_spec(v: Option<u16>) -> Self {
        StatusCodeDisplay(v)
    }
}

impl From<u16> for StatusCodeDisplay {
    fn from(status: u16) -> (r: Self) {
        StatusCodeDisplay(Some(status))
    }
}

impl vstd::std_specs::convert::FromSpecImpl<u16> for StatusCodeDisplay {
    open spec fn obeys_from_spec() -> bool {
        true
    }

    open spec fn from_spec(v: u16) -> Self {
        StatusCodeDisplay(Some(v))
    }
}

impl From<reqwest::Error> for ApiClientError {
    fn from(e: reqwest::Error) -> (r: Self) {
        ApiClientError::ReqwestErr(e)
    }
}

impl vstd::std_specs::convert::FromSpecImpl<reqwest::Error> for ApiClientError {
    open spec fn obeys_from_spec() -> bool {
        true
    }

    open spec fn from_spec(v: reqwest::Error) -> Self {
        ApiClientError::ReqwestErr(v)
    }
}

impl From<serde_json::Error> for ApiClientError {
    fn from(e: serde_json::Error) -> (r: Self) {
        ApiClientError::SerdeError(e)
    }
}

impl vstd::std_specs::convert::FromSpecImpl<serde_json::Error> for ApiClientError {
    open spec fn obeys_from_spec() -> bool {
        true
    }

    open spec fn from_spec(v: serde_json::Error) -> Self {
        ApiClientError::SerdeError(v)
    }
}

impl From<url::ParseError> for ApiClientError {
    fn from(e: url::ParseError) -> (r: Self) {
        ApiClientError::UrlError(e)
    }
}

impl vstd::std_specs::convert::FromSpecImpl<url::ParseError> for ApiClientError {
    open spec fn obeys_from_spec() -> bool {
        true
    }

    open spec fn from_spec(v: url::ParseError) -> Self {
        ApiClientError::UrlError(v)
    }
}

impl From<ApiClientError> for BrainClientError {
    fn from(e: ApiClientError) -> (r: Self) {
        BrainClientError::ApiClientError(e)
    }
}

impl vstd::std_specs::convert::FromSpecImpl<ApiClientError> for BrainClientError {
    open spec fn obeys_from_spec() -> bool {
        true
    }

    open spec fn from_spec(v: ApiClientError) -> Self {
        BrainClientError::ApiClientError(v)
    }
}

impl From<serde_json::Error> for BrainClientError {
    fn from(e: serde_json::Error) -> (r: Self) {
        BrainClientError::DeserializeError(e)
    }
}

impl vstd::std_specs::convert::FromSpecImpl<serde_json::Error> for BrainClientError {
    open spec fn obeys_from_spec() -> bool {
        true
    }

    open spec fn from_spec(v: serde_json::Error) -> Self {
        BrainClientError::DeserializeError(v)
    }
}

impl From<std::io::Error> for BrainClientError {
    fn from(e: std::io::Error) -> (r: Self) {
        BrainClientError::FileReadError(e)
    }
}

impl vstd::std_specs::convert::FromSpecImpl<std::io::Error> for BrainClientError {
    open spec fn obeys_from_spec() -> bool {
        true
    }

    open spec fn from_spec(v: std::io::Error) -> Self {
        BrainClientError::FileReadError(v)
    }
}

impl From<polars::error::PolarsError> for BrainClientError {
    fn from(e: polars::error::PolarsError) -> (r: Self) {
        BrainClientError::DFERROR(e)
    }
}

impl vstd::std_specs::convert::FromSpecImpl<polars::error::PolarsError> for BrainClientError {
    open spec fn obeys_from_spec() -> bool {
        true
    }

    open spec fn from_spec(v: polars::error::PolarsError) -> Self {
        BrainClientError::DFERROR(v)
    }
}

} // verus!
