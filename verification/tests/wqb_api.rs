use ace::wqb_api::client::{
    check_status, created_simulation_id, data_fields_query, data_sets_query, ApiClientError,
    StatusCodeDisplay,
};
use ace::wqb_api::model::{DataFieldsSetting, DataSetsSetting};
use ace::wqb_api::sign_in_info;

#[test]
fn placeholder_credentials() {
    let info = sign_in_info();
    assert_eq!(info.email, "xxxx@xxx.com");
    assert_eq!(info.password, "xxxxx");
}

#[test]
fn wqb_data_sets_query_follows_field_order() {
    let s = DataSetsSetting {
        delay: 1,
        instrument_type: "EQUITY".to_string(),
        limit: 20,
        offset: 0,
        region: "USA".to_string(),
        universe: "TOP3000".to_string(),
    };
    let q: Vec<(String, String)> = data_sets_query(&s);
    let keys: Vec<&str> = q.iter().map(|p| p.0.as_str()).collect();
    assert_eq!(keys, vec!["delay", "instrumentType", "limit", "offset", "region", "universe"]);
    assert_eq!(q[2].1, "20");
}

#[test]
fn wqb_data_fields_query_ends_with_dataset() {
    let s = DataFieldsSetting {
        delay: 0,
        instrument_type: "EQUITY".to_string(),
        limit: 255,
        offset: 7,
        region: "USA".to_string(),
        universe: "TOP500".to_string(),
        data_set_id: "analyst10".to_string(),
    };
    let q = data_fields_query(&s);
    assert_eq!(q.len(), 7);
    assert_eq!(q[0], ("delay".to_string(), "0".to_string()));
    assert_eq!(q[2], ("limit".to_string(), "255".to_string()));
    assert_eq!(q[6], ("dataset.id".to_string(), "analyst10".to_string()));
}

#[test]
fn wqb_status_and_location() {
    assert!(check_status("operators", 204).is_ok());
    match check_status("operators", 503) {
        Err(ApiClientError::ResponseError { api_name, status }) => {
            assert_eq!(api_name, "operators");
            assert_eq!(status.text(), "503 Service Unavailable");
        }
        other => panic!("unexpected {:?}", other),
    }
    assert_eq!(StatusCodeDisplay(None).text(), "无状态码(可能是网络超时)");
    assert_eq!(created_simulation_id(Some(b"https://h/simulations/xyz")).unwrap(), "xyz");
    assert!(matches!(created_simulation_id(None), Err(ApiClientError::BussinessError(_, _))));
}
