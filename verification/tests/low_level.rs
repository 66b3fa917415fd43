use ace::err::{ApiClientError, StatusCodeDisplay};
use ace::location::{simulation_id, LocationError};
use ace::low_level::client::{
    check_status, created_simulation_id, data_fields_query, data_sets_query, endpoint_url,
    request_url, retry_after_seconds, retry_after_text, user_activities_request, Endpoint,
    HttpMethod, Retry, RetryPolicy, RetryStep,
};
use ace::low_level::types::User;
use ace::app::BaseSetting;

fn setting() -> BaseSetting {
    BaseSetting {
        delay: 1,
        instrument_type: "EQUITY".to_string(),
        region: "USA".to_string(),
        universe: "TOP3000".to_string(),
    }
}

fn pairs(v: &[(&str, &str)]) -> Vec<(String, String)> {
    v.iter().map(|(a, b)| (a.to_string(), b.to_string())).collect()
}

#[test]
fn endpoints_have_their_paths_methods_and_names() {
    let e = Endpoint::AlphaRecordsetsName("78KkV3oQ".to_string(), "pnl".to_string());
    assert_eq!(e.path(), "alphas/78KkV3oQ/recordsets/pnl");
    assert_eq!(e.method(), HttpMethod::Patch);
    assert_eq!(e.api_name(), "alpha_recordsets_setname");
    assert_eq!(Endpoint::SignIn.method(), HttpMethod::Post);
    assert_eq!(Endpoint::SignIn.path(), "authentication");
    assert_eq!(Endpoint::DeleteAuthentication.method(), HttpMethod::Delete);
    assert_eq!(Endpoint::OptionSimulations.method(), HttpMethod::Options);
    assert_eq!(Endpoint::GetSimulations("s1".to_string()).path(), "simulations/s1");
    assert_eq!(Endpoint::Alphas("a".to_string()).api_name(), "get_alphas");
    assert_eq!(Endpoint::AlphaRecordsets("a".to_string()).path(), "alphas/a/recordsets");
    assert_eq!(
        Endpoint::UserActivitiesDiversities("U1".to_string()).path(),
        "users/U1/activities/diversity"
    );
    assert_eq!(Endpoint::DataSets.path(), "data-sets");
    assert_eq!(Endpoint::DataFields.path(), "data-fields");
    assert_eq!(Endpoint::Operators.api_name(), "operators");
}

#[test]
fn error_statuses_are_client_and_server_errors() {
    assert!(check_status("x", 200).is_ok());
    assert!(check_status("x", 302).is_ok());
    assert!(check_status("x", 399).is_ok());
    assert!(check_status("x", 600).is_ok());
    match check_status("data_sets", 404) {
        Err(ApiClientError::ResponseError { api_name, status }) => {
            assert_eq!(api_name, "data_sets");
            assert_eq!(status.0, Some(404));
        }
        other => panic!("unexpected {:?}", other),
    }
    assert!(check_status("x", 599).is_err());
    assert!(check_status("x", 429).is_err());
}

#[test]
fn status_text_prints_code_and_reason() {
    assert_eq!(StatusCodeDisplay(Some(404)).text(), "404 Not Found");
    assert_eq!(StatusCodeDisplay(Some(401)).text(), "401 Unauthorized");
    assert_eq!(StatusCodeDisplay(Some(799)).text(), "799 <unknown status code>");
    assert_eq!(StatusCodeDisplay(Some(42)).text(), "42 <unknown status code>");
    assert_eq!(StatusCodeDisplay(None).text(), "无状态码(可能是网络超时)");
    let from: StatusCodeDisplay = Some(500u16).into();
    assert_eq!(from.0, Some(500));
}

#[test]
fn simulation_id_is_last_path_segment() {
    let loc = b"https://api.worldquantbrain.com/simulations/3Jd2kQ";
    assert_eq!(created_simulation_id(Some(loc)).unwrap(), "3Jd2kQ");
    let loc = b"https://api.worldquantbrain.com/simulations/3Jd2kQ/?x=1";
    assert_eq!(created_simulation_id(Some(loc)).unwrap(), "3Jd2kQ");
}

fn business_detail(r: Result<String, ApiClientError>) -> String {
    match r {
        Err(ApiClientError::BussinessError(api, detail)) => {
            assert_eq!(api, "post_simulations");
            detail
        }
        other => panic!("unexpected {:?}", other),
    }
}

#[test]
fn simulation_id_errors_name_their_cause() {
    assert_eq!(business_detail(created_simulation_id(None)), "Location header not found");
    assert_eq!(
        business_detail(created_simulation_id(Some(b"https://x.com/\xff"))),
        "Location header contains invalid UTF-8"
    );
    assert_eq!(
        business_detail(created_simulation_id(Some(b"data:text/plain,hello"))),
        "Location URL cannot be a base (no path segments)"
    );
    assert_eq!(
        business_detail(created_simulation_id(Some(b"https://x.com/"))),
        "Location header path is empty"
    );
    assert!(matches!(
        created_simulation_id(Some(b"/simulations/abc")),
        Err(ApiClientError::UrlError(_))
    ));
    assert!(matches!(simulation_id(Some(b"not a url")), Err(LocationError::Url(_))));
}

#[test]
fn retry_after_header_text() {
    assert_eq!(retry_after_text(None), None);
    assert_eq!(retry_after_text(Some(b"2.5")), Some("2.5".to_string()));
    assert_eq!(retry_after_text(Some(b"\x01")), Some("1".to_string()));
}

#[test]
fn data_sets_query_orders_settings_page_query() {
    let q = data_sets_query(&setting(), 20, 0, &[("search", "cash")]);
    assert_eq!(
        q,
        pairs(&[
            ("delay", "1"),
            ("instrumentType", "EQUITY"),
            ("region", "USA"),
            ("universe", "TOP3000"),
            ("limit", "20"),
            ("offset", "0"),
            ("search", "cash"),
        ])
    );
}

#[test]
fn data_fields_query_orders_settings_query_page() {
    let q = data_fields_query(&setting(), 50, 100, &[("dataset.id", "analyst10")]);
    assert_eq!(
        q,
        pairs(&[
            ("delay", "1"),
            ("instrumentType", "EQUITY"),
            ("region", "USA"),
            ("universe", "TOP3000"),
            ("dataset.id", "analyst10"),
            ("limit", "50"),
            ("offset", "100"),
        ])
    );
}

fn run(policy: &RetryPolicy, statuses: &[u16]) -> Vec<RetryStep> {
    let mut r = Retry::new(policy);
    let mut out = Vec::new();
    for &s in statuses {
        let step = r.on_status(s);
        out.push(step);
        if step != RetryStep::WaitThenResend(policy.retry_delay_secs) {
            break;
        }
    }
    out
}

#[test]
fn throttled_request_gives_up_after_max_retries_plus_one() {
    let policy = RetryPolicy::standard();
    assert_eq!(policy.max_retries, 6);
    assert_eq!(policy.retry_delay_secs, 60);
    let steps = run(&policy, &[429; 10]);
    assert_eq!(steps.len(), 7);
    assert_eq!(steps[6], RetryStep::WaitThenGiveUp(60));
    assert!(steps[..6].iter().all(|s| *s == RetryStep::WaitThenResend(60)));
    assert!(matches!(Retry::new(&policy).exhausted(), ApiClientError::MaxRetriesExceeded));
}

#[test]
fn throttled_request_accepts_first_other_answer() {
    let policy = RetryPolicy { max_retries: 6, retry_delay_secs: 60 };
    let steps = run(&policy, &[429, 429, 500, 200]);
    assert_eq!(
        steps,
        vec![RetryStep::WaitThenResend(60), RetryStep::WaitThenResend(60), RetryStep::Accept]
    );
    let none = RetryPolicy { max_retries: 0, retry_delay_secs: 3 };
    assert_eq!(run(&none, &[429, 200]), vec![RetryStep::WaitThenGiveUp(3)]);
    assert_eq!(run(&none, &[200]), vec![RetryStep::Accept]);
}

#[test]
fn request_urls_resolve_against_the_api_base() {
    assert_eq!(
        request_url(&Endpoint::SignIn).unwrap(),
        "https://api.worldquantbrain.com/authentication"
    );
    assert_eq!(
        endpoint_url(&Endpoint::AlphaRecordsetsName("78KkV3oQ".to_string(), "pnl".to_string()))
            .unwrap(),
        "https://api.worldquantbrain.com/alphas/78KkV3oQ/recordsets/pnl"
    );
    // An id is resolved as part of the reference: `..` climbs out of it.
    assert_eq!(
        request_url(&Endpoint::Alphas("../operators".to_string())).unwrap(),
        "https://api.worldquantbrain.com/operators"
    );
}

#[test]
fn failed_sends_are_retried_while_retries_remain() {
    let mut r = Retry::new(&RetryPolicy { max_retries: 2, retry_delay_secs: 5 });
    assert!(r.on_transport_error());
    assert_eq!(r.on_status(429), RetryStep::WaitThenResend(5));
    assert!(!r.on_transport_error());
    assert_eq!(r.on_status(429), RetryStep::WaitThenGiveUp(5));
}

#[test]
fn retry_after_seconds_reads_header_or_waits_none() {
    let read = |t: &str| t.parse::<f64>().unwrap_or(10.0) as u64;
    assert_eq!(retry_after_seconds(None, read), 0);
    assert_eq!(retry_after_seconds(Some(b"2.5"), read), 2);
    assert_eq!(retry_after_seconds(Some(b"soon"), read), 10);
    assert_eq!(retry_after_seconds(Some(b"\x01"), read), 1);
}

#[test]
fn simulation_ids_are_single_nonempty_segments() {
    for loc in ["https://h/simulations/a1", "https://h/x//y/", "https://h/%2F/z"] {
        let id = created_simulation_id(Some(loc.as_bytes())).unwrap();
        assert!(!id.is_empty() && !id.contains('/'), "{}", loc);
    }
}

#[test]
fn user_activities_ask_for_the_signed_in_user() {
    let next = user_activities_request(Ok(User { id: "U1".to_string() })).unwrap();
    assert_eq!(next.path(), "users/U1/activities/diversity");
    assert_eq!(next.method(), HttpMethod::Get);
    assert_eq!(next.api_name(), "user_activities_diversities");
    assert!(matches!(
        user_activities_request(Err(ApiClientError::MaxRetriesExceeded)),
        Err(ApiClientError::MaxRetriesExceeded)
    ));
}
