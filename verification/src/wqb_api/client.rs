//! How the first client judges answers and builds queries.
use super::model::{DataFieldsSetting, DataSetsSetting};
use crate::location::{header_bytes, location_result, LocationFailure};
use crate::low_level::client::{location_detail, sends, string_pairs};
use crate::text::{decimal, u64_text};
pub use crate::err::StatusCodeDisplay;
use vstd::prelude::*;
use vstd::string::*;

verus! {

/// API client errors.
#[derive(Debug)]
pub enum ApiClientError {
    ReqwestErr(reqwest::Error),
    ResponseError { api_name: String, status: StatusCodeDisplay },
    SerdeError(serde_json::Error),
    UrlError(url::ParseError),
    BussinessError(String, String),
}

impl From<reqwest::Error> for ApiClientError {
    fn from(e: reqwest::Error) -> (r: Self) {
        ApiClientError::ReqwestErr(e)
    }
}

impl vstd::std_specs::convert::FromSpecImpl<reqwest::Error> for ApiClientError {
    open spec fn obeys_from_spec() -> bool {
        true
    }

    open spec fn from_spec(v: reqwest::Error) -> Self {
        ApiClientError::ReqwestErr(v)
    }
}

impl From<serde_json::Error> for ApiClientError {
    fn from(e: serde_json::Error) -> (r: Self) {
        ApiClientError::SerdeError(e)
    }
}

impl vstd::std_specs::convert::FromSpecImpl<serde_json::Error> for ApiClientError {
    open spec fn obeys_from_spec() -> bool {
        true
    }

    open spec fn from_spec(v: serde_json::Error) -> Self {
        ApiClientError::SerdeError(v)
    }
}

impl From<url::ParseError> for ApiClientError {
    fn from(e: url::ParseError) -> (r: Self) {
        ApiClientError::UrlError(e)
    }
}

impl vstd::std_specs::convert::FromSpecImpl<url::ParseError> for ApiClientError {
    open spec fn obeys_from_spec() -> bool {
        true
    }

    open spec fn from_spec(v: url::ParseError) -> Self {
        ApiClientError::UrlError(v)
    }
}

/// An error that both clients report alike, in this client's terms; this
/// client never gives up on retries, so that error has no counterpart.
fn shared_error(e: crate::err::ApiClientError) -> (r: ApiClientError)
    requires
        !(e is MaxRetriesExceeded),
    ensures
        e matches crate::err::ApiClientError::ReqwestErr(x) ==> r == ApiClientError::ReqwestErr(x),
        e matches crate::err::ApiClientError::ResponseError { api_name, status } ==> r == (
        ApiClientError::ResponseError { api_name, status }),
        e matches crate::err::ApiClientError::SerdeError(x) ==> r == ApiClientError::SerdeError(x),
        e matches crate::err::ApiClientError::UrlError(x) ==> r == ApiClientError::UrlError(x),
        e matches crate::err::ApiClientError::BussinessError(a, b) ==> r
            == ApiClientError::BussinessError(a, b),
{
    match e {
        crate::err::ApiClientError::ReqwestErr(x) => ApiClientError::ReqwestErr(x),
        crate::err::ApiClientError::ResponseError { api_name, status } => {
            ApiClientError::ResponseError { api_name, status }
        },
        crate::err::ApiClientError::SerdeError(x) => ApiClientError::SerdeError(x),
        crate::err::ApiClientError::UrlError(x) => ApiClientError::UrlError(x),
        crate::err::ApiClientError::BussinessError(a, b) => ApiClientError::BussinessError(a, b),
        crate::err::ApiClientError::MaxRetriesExceeded => {
            proof {
                assert(false);
            }
            ApiClientError::BussinessError(String::new(), String::new())
        },
    }
}

/// Judges the status of an answer as the other client does: a client or
/// server error (400..=599) becomes a `ResponseError` under `api_name`, any
/// other status passes.
pub fn check_status(api_name: &str, status: u16) -> (res: Result<(), ApiClientError>)
    ensures
        res is Err <==> 400 <= status < 600,
        res matches Err(e) ==> (e matches ApiClientError::ResponseError { api_name: n, status: s }
            && n@ == api_name@ && s.0 == Some(status)),
{
    match crate::low_level::client::check_status(api_name, status) {
        Ok(()) => Ok(()),
        Err(e) => Err(shared_error(e)),
    }
}

/// The id of the simulation that a `post_simulations` answer created, read
/// from its `Location` header (`None` when the answer has none), as the
/// other client reads it.
pub fn created_simulation_id(location: Option<&[u8]>) -> (res: Result<String, ApiClientError>)
    ensures
        match location_result(header_bytes(location)) {
            Ok(id) => res matches Ok(r) && r@ == id,
            Err(f) => match f {
                LocationFailure::Url => res matches Err(ApiClientError::UrlError(_)),
                _ => res matches Err(ApiClientError::BussinessError(a, b)) && a@
                    == "post_simulations"@ && b@ == location_detail(f),
            },
        },
        res matches Ok(id) ==> id@.len() > 0 && !id@.contains('/'),
{
    match crate::low_level::client::created_simulation_id(location) {
        Ok(id) => Ok(id),
        Err(e) => Err(shared_error(e)),
    }
}

/// The query parameters that a `DataSetsSetting` is sent as.
pub open spec fn data_sets_pairs(s: DataSetsSetting) -> Seq<(Seq<char>, Seq<char>)> {
    seq![
        ("delay"@, decimal(s.delay as nat)),
        ("instrumentType"@, s.instrument_type@),
        ("limit"@, decimal(s.limit as nat)),
        ("offset"@, decimal(s.offset as nat)),
        ("region"@, s.region@),
        ("universe"@, s.universe@),
    ]
}

/// The query parameters that a `DataFieldsSetting` is sent as.
pub open spec fn data_fields_pairs(s: DataFieldsSetting) -> Seq<(Seq<char>, Seq<char>)> {
    seq![
        ("delay"@, decimal(s.delay as nat)),
        ("instrumentType"@, s.instrument_type@),
        ("limit"@, decimal(s.limit as nat)),
        ("offset"@, decimal(s.offset as nat)),
        ("region"@, s.region@),
        ("universe"@, s.universe@),
        ("dataset.id"@, s.data_set_id@),
    ]
}

proof fn lemma_keys_distinct()
    ensures
        "delay"@ != "instrumentType"@,
        "delay"@ != "limit"@,
        "delay"@ != "offset"@,
        "delay"@ != "region"@,
        "delay"@ != "universe"@,
        "delay"@ != "dataset.id"@,
        "instrumentType"@ != "limit"@,
        "instrumentType"@ != "offset"@,
        "instrumentType"@ != "region"@,
        "instrumentType"@ != "universe"@,
        "instrumentType"@ != "dataset.id"@,
        "limit"@ != "offset"@,
        "limit"@ != "region"@,
        "limit"@ != "universe"@,
        "limit"@ != "dataset.id"@,
        "offset"@ != "region"@,
        "offset"@ != "universe"@,
        "offset"@ != "dataset.id"@,
        "region"@ != "universe"@,
        "region"@ != "dataset.id"@,
        "universe"@ != "dataset.id"@,
{
    reveal_strlit("delay");
    reveal_strlit("instrumentType");
    reveal_strlit("limit");
    reveal_strlit("offset");
    reveal_strlit("region");
    reveal_strlit("universe");
    reveal_strlit("dataset.id");
    assert("delay"@[0] != "instrumentType"@[0]);
    assert("delay"@[0] != "limit"@[0]);
    assert("delay"@[0] != "offset"@[0]);
    assert("delay"@[0] != "region"@[0]);
    assert("delay"@[0] != "universe"@[0]);
    assert("delay"@[1] != "dataset.id"@[1]);
    assert("instrumentType"@[0] != "limit"@[0]);
    assert("instrumentType"@[0] != "offset"@[0]);
    assert("instrumentType"@[0] != "region"@[0]);
    assert("instrumentType"@[0] != "universe"@[0]);
    assert("instrumentType"@[0] != "dataset.id"@[0]);
    assert("limit"@[0] != "offset"@[0]);
    assert("limit"@[0] != "region"@[0]);
    assert("limit"@[0] != "universe"@[0]);
    assert("limit"@[0] != "dataset.id"@[0]);
    assert("offset"@[0] != "region"@[0]);
    assert("offset"@[0] != "universe"@[0]);
    assert("offset"@[0] != "dataset.id"@[0]);
    assert("region"@[0] != "universe"@[0]);
    assert("region"@[0] != "dataset.id"@[0]);
    assert("universe"@[0] != "dataset.id"@[0]);
}

/// A `DataSetsSetting` is sent field by field, each under its own name: the
/// numbers in decimal, the texts as they are.
pub proof fn data_sets_pairs_law(s: DataSetsSetting)
    ensures
        data_sets_pairs(s).len() == 6,
        sends(data_sets_pairs(s), "delay"@, decimal(s.delay as nat)),
        sends(data_sets_pairs(s), "instrumentType"@, s.instrument_type@),
        sends(data_sets_pairs(s), "limit"@, decimal(s.limit as nat)),
        sends(data_sets_pairs(s), "offset"@, decimal(s.offset as nat)),
        sends(data_sets_pairs(s), "region"@, s.region@),
        sends(data_sets_pairs(s), "universe"@, s.universe@),
{
    lemma_keys_distinct();
    let q = data_sets_pairs(s);
    assert(q[0] == ("delay"@, decimal(s.delay as nat)));
    assert(q[1] == ("instrumentType"@, s.instrument_type@));
    assert(q[2] == ("limit"@, decimal(s.limit as nat)));
    assert(q[3] == ("offset"@, decimal(s.offset as nat)));
    assert(q[4] == ("region"@, s.region@));
    assert(q[5] == ("universe"@, s.universe@));
}

/// A `DataFieldsSetting` is sent field by field, each under its own name:
/// the numbers in decimal, the texts as they are, the data set as
/// `dataset.id`.
pub proof fn data_fields_pairs_law(s: DataFieldsSetting)
    ensures
        data_fields_pairs(s).len() == 7,
        sends(data_fields_pairs(s), "delay"@, decimal(s.delay as nat)),
        sends(data_fields_pairs(s), "instrumentType"@, s.instrument_type@),
        sends(data_fields_pairs(s), "limit"@, decimal(s.limit as nat)),
        sends(data_fields_pairs(s), "offset"@, decimal(s.offset as nat)),
        sends(data_fields_pairs(s), "region"@, s.region@),
        sends(data_fields_pairs(s), "universe"@, s.universe@),
        sends(data_fields_pairs(s), "dataset.id"@, s.data_set_id@),
{
    lemma_keys_distinct();
    let q = data_fields_pairs(s);
    assert(q[0] == ("delay"@, decimal(s.delay as nat)));
    assert(q[1] == ("instrumentType"@, s.instrument_type@));
    assert(q[2] == ("limit"@, decimal(s.limit as nat)));
    assert(q[3] == ("offset"@, decimal(s.offset as nat)));
    assert(q[4] == ("region"@, s.region@));
    assert(q[5] == ("universe"@, s.universe@));
    assert(q[6] == ("dataset.id"@, s.data_set_id@));
}

fn pair(key: &str, value: String) -> (p: (String, String))
    ensures
        p.0@ == key@,
        p.1@ == value@,
{
    (String::from_str(key), value)
}

/// The query of a `data_sets` call.
pub fn data_sets_query(settings: &DataSetsSetting) -> (q: Vec<(String, String)>)
    ensures
        string_pairs(q@) == data_sets_pairs(*settings),
        sends(string_pairs(q@), "region"@, settings.region@),
        sends(string_pairs(q@), "universe"@, settings.universe@),
        sends(string_pairs(q@), "instrumentType"@, settings.instrument_type@),
{
    let q = vec![
        pair("delay", u64_text(settings.delay as u64)),
        pair("instrumentType", settings.instrument_type.clone()),
        pair("limit", u64_text(settings.limit as u64)),
        pair("offset", u64_text(settings.offset as u64)),
        pair("region", settings.region.clone()),
        pair("universe", settings.universe.clone()),
    ];
    assert(string_pairs(q@) =~= data_sets_pairs(*settings));
    proof {
        data_sets_pairs_law(*settings);
    }
    q
}

/// The query of a `data_fields` call.
pub fn data_fields_query(settings: &DataFieldsSetting) -> (q: Vec<(String, String)>)
    ensures
        string_pairs(q@) == data_fields_pairs(*settings),
        sends(string_pairs(q@), "region"@, settings.region@),
        sends(string_pairs(q@), "universe"@, settings.universe@),
        sends(string_pairs(q@), "instrumentType"@, settings.instrument_type@),
        sends(string_pairs(q@), "dataset.id"@, settings.data_set_id@),
{
    let q = vec![
        pair("delay", u64_text(settings.delay as u64)),
        pair("instrumentType", settings.instrument_type.clone()),
        pair("limit", u64_text(settings.limit as u64)),
        pair("offset", u64_text(settings.offset as u64)),
        pair("region", settings.region.clone()),
        pair("universe", settings.universe.clone()),
        pair("dataset.id", settings.data_set_id.clone()),
    ];
    assert(string_pairs(q@) =~= data_fields_pairs(*settings));
    proof {
        data_fields_pairs_law(*settings);
    }
    q
}

} // verus!
