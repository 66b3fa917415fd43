use ace::app::runner::{after_filter, after_generate, after_simulate, RunAction};
use ace::err::{ApiClientError, BrainClientError, StatusCodeDisplay};
use ace::high_level::brain_client::{
    after_post, login_error, poll_step, simulation_step, DataFieldPager, FieldsPage, PollAnswer,
    SimulationStep, PAGE_LIMIT,
};
use ace::high_level::simple_strategy::SimpleStrategy;
use ace::high_level::sql_db::SqlDb;
use ace::high_level::BrainClientConfig;

fn page(count: Option<u64>, results: Option<Vec<&str>>) -> FieldsPage {
    FieldsPage { count, results: results.map(|v| v.into_iter().map(|s| s.to_string()).collect()) }
}

fn not_found(e: BrainClientError) -> String {
    match e {
        BrainClientError::NotFoundField(f) => f,
        other => panic!("unexpected {:?}", other),
    }
}

#[test]
fn refused_sign_in_is_login_failed() {
    let refused = ApiClientError::ResponseError {
        api_name: "sign_in".to_string(),
        status: StatusCodeDisplay(Some(401)),
    };
    assert!(matches!(login_error(refused), BrainClientError::LoginFailed()));
    let other = ApiClientError::ResponseError {
        api_name: "sign_in".to_string(),
        status: StatusCodeDisplay(Some(500)),
    };
    assert!(matches!(
        login_error(other),
        BrainClientError::ApiClientError(ApiClientError::ResponseError { .. })
    ));
    assert!(matches!(
        login_error(ApiClientError::MaxRetriesExceeded),
        BrainClientError::ApiClientError(ApiClientError::MaxRetriesExceeded)
    ));
}

#[test]
fn simulation_waits_then_reads_alpha() {
    assert!(matches!(simulation_step(5, None), SimulationStep::Wait(5)));
    match simulation_step(0, Some("78KkV3oQ".to_string())) {
        SimulationStep::Finished(Ok(id)) => assert_eq!(id, "78KkV3oQ"),
        other => panic!("unexpected {:?}", other),
    }
    match simulation_step(0, None) {
        SimulationStep::Finished(Err(e)) => assert_eq!(not_found(e), "alpha"),
        other => panic!("unexpected {:?}", other),
    }
}

#[test]
fn pager_asks_for_every_later_page_in_order() {
    let mut p = DataFieldPager::start(PAGE_LIMIT, page(Some(120), Some(vec!["{\"id\":\"a\"}"]))).unwrap();
    assert_eq!(p.next_offset(), Some(50));
    p.add_page(page(None, Some(vec!["{\"id\":\"b\"}"]))).unwrap();
    assert_eq!(p.next_offset(), Some(100));
    p.add_page(page(None, Some(vec!["{\"id\":\"c\"}", "{\"id\":\"d\"}"]))).unwrap();
    assert_eq!(p.next_offset(), None);
    assert_eq!(
        p.records_json(),
        Some("[{\"id\":\"a\"},{\"id\":\"b\"},{\"id\":\"c\"},{\"id\":\"d\"}]".to_string())
    );
}

#[test]
fn pager_offsets_match_step_by() {
    for count in [0u64, 1, 49, 50, 51, 99, 100, 101, 1000] {
        let mut p = DataFieldPager::start(50, page(Some(count), Some(vec![]))).unwrap();
        let mut got = Vec::new();
        while let Some(o) = p.next_offset() {
            got.push(o);
            p.add_page(page(None, Some(vec![]))).unwrap();
        }
        let expected: Vec<u32> = (50..count as u32).step_by(50).collect();
        assert_eq!(got, expected, "count {}", count);
    }
}

#[test]
fn pager_truncates_count_to_u32() {
    let p = DataFieldPager::start(50, page(Some((1u64 << 32) + 5), Some(vec![]))).unwrap();
    assert_eq!(p.next_offset(), None);
    let p = DataFieldPager::start(50, page(Some((1u64 << 32) + 60), Some(vec![]))).unwrap();
    assert_eq!(p.next_offset(), Some(50));
}

#[test]
fn pager_reports_missing_fields() {
    assert_eq!(not_found(DataFieldPager::start(50, page(None, Some(vec![]))).err().unwrap()), "count");
    assert_eq!(not_found(DataFieldPager::start(50, page(Some(3), None)).err().unwrap()), "results");
    let mut p = DataFieldPager::start(50, page(Some(80), Some(vec![]))).unwrap();
    assert_eq!(not_found(p.add_page(page(None, None)).unwrap_err()), "results");
}

#[test]
fn pager_with_no_records_gives_empty_frame() {
    let p = DataFieldPager::start(50, page(Some(0), Some(vec![]))).unwrap();
    assert_eq!(p.records_json(), None);
    let df = p.frame().unwrap();
    assert_eq!(df.height(), 0);
    assert_eq!(df.width(), 0);
}

#[test]
fn pager_frame_has_one_row_per_record() {
    let p = DataFieldPager::start(
        50,
        page(Some(2), Some(vec!["{\"id\":\"a\",\"n\":1}", "{\"id\":\"b\",\"n\":2}"])),
    )
    .unwrap();
    let df = p.frame().unwrap();
    assert_eq!(df.height(), 2);
    let ids = df.column("id").unwrap().str().unwrap().clone();
    assert_eq!(ids.get(0), Some("a"));
    assert_eq!(ids.get(1), Some("b"));
}

#[test]
fn run_finishes_when_nothing_is_pending() {
    match after_filter::<u8, String>(Ok(vec![])) {
        RunAction::Finish(Ok(())) => {}
        _ => panic!("a run with nothing pending must end"),
    }
    match after_filter::<u8, String>(Ok(vec![3, 1])) {
        RunAction::Simulate(p) => assert_eq!(p, vec![3, 1]),
        _ => panic!("pending simulations must be run"),
    }
    match after_filter::<u8, String>(Err("store down".to_string())) {
        RunAction::Finish(Err(e)) => assert_eq!(e, "store down"),
        _ => panic!("a failed filter must end the run"),
    }
}

#[test]
fn run_filters_all_generated_and_ends_with_simulation_outcome() {
    match after_generate::<u8, String>(Ok(vec![7, 8, 9])) {
        RunAction::Filter(g) => assert_eq!(g, vec![7, 8, 9]),
        _ => panic!("generated simulations must all be filtered"),
    }
    match after_generate::<u8, String>(Err("no strategy".to_string())) {
        RunAction::Finish(Err(e)) => assert_eq!(e, "no strategy"),
        _ => panic!("a failed generation must end the run"),
    }
    assert!(matches!(after_simulate::<u8, String>(Ok(())), RunAction::Finish(Ok(()))));
    match after_simulate::<u8, String>(Err("simulation failed".to_string())) {
        RunAction::Finish(Err(e)) => assert_eq!(e, "simulation failed"),
        _ => panic!("a failed simulation must end the run with its error"),
    }
}

#[test]
fn failed_post_ends_simulation_before_any_poll() {
    assert_eq!(after_post(Ok("sim1".to_string())).unwrap(), "sim1");
    assert!(matches!(
        after_post(Err(ApiClientError::MaxRetriesExceeded)),
        Err(BrainClientError::ApiClientError(ApiClientError::MaxRetriesExceeded))
    ));
}

#[test]
fn polls_wait_until_a_poll_fails_or_reports_no_delay() {
    let answers: Vec<Result<PollAnswer, ApiClientError>> = vec![
        Ok(PollAnswer { retry_after: 3, alpha: None }),
        Ok(PollAnswer { retry_after: 2, alpha: None }),
        Ok(PollAnswer { retry_after: 0, alpha: Some("78KkV3oQ".to_string()) }),
        Ok(PollAnswer { retry_after: 9, alpha: None }),
    ];
    let mut polls = 0;
    let mut paused = 0;
    let mut outcome = None;
    for a in answers {
        polls += 1;
        match poll_step(a) {
            SimulationStep::Wait(s) => paused += s,
            SimulationStep::Finished(r) => {
                outcome = Some(r);
                break;
            }
        }
    }
    assert_eq!(polls, 3);
    assert_eq!(paused, 5);
    assert_eq!(outcome.unwrap().unwrap(), "78KkV3oQ");
    match poll_step(Err(ApiClientError::MaxRetriesExceeded)) {
        SimulationStep::Finished(Err(BrainClientError::ApiClientError(
            ApiClientError::MaxRetriesExceeded,
        ))) => {}
        other => panic!("unexpected {:?}", other),
    }
    match poll_step(Ok(PollAnswer { retry_after: 0, alpha: None })) {
        SimulationStep::Finished(Err(e)) => assert_eq!(not_found(e), "alpha"),
        other => panic!("unexpected {:?}", other),
    }
}

#[test]
fn pager_records_are_all_pages_in_order() {
    let mut p = DataFieldPager::start(2, page(Some(5), Some(vec!["1", "2"]))).unwrap();
    let mut asked = vec![];
    let mut next = 3;
    while let Some(o) = p.next_offset() {
        asked.push(o);
        let n = next.to_string();
        let m = (next + 1).to_string();
        p.add_page(page(None, Some(vec![n.as_str(), m.as_str()]))).unwrap();
        next += 2;
    }
    assert_eq!(asked, vec![2, 4]);
    assert_eq!(p.records_json().unwrap(), "[1,2,3,4,5,6]");
}

#[test]
fn placeholder_strategy_and_store_yield_nothing() {
    let s = SimpleStrategy::default();
    assert!(s.proposals::<u8>().is_empty());
    let db = SqlDb::default();
    assert!(db.new_data::<i32, i32>(vec![1, 2, 3]).is_empty());
    let c = BrainClientConfig { auth_file_path: "/tmp/auth.json".to_string() };
    assert_eq!(c.auth_file_path, "/tmp/auth.json");
}
