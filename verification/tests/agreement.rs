use ace::err::StatusCodeDisplay;
use ace::low_level::client::{check_status, created_simulation_id};
use ace::text::header_text;
use reqwest::header::HeaderValue;
use reqwest::StatusCode;

#[test]
fn status_check_agrees_with_error_for_status() {
    for code in 100u16..1000 {
        let s = StatusCode::from_u16(code).unwrap();
        assert_eq!(
            check_status("x", code).is_err(),
            s.is_client_error() || s.is_server_error(),
            "code {}",
            code
        );
    }
}

#[test]
fn status_text_agrees_with_status_display() {
    for code in 100u16..1000 {
        let s = StatusCode::from_u16(code).unwrap();
        assert_eq!(StatusCodeDisplay(Some(code)).text(), s.to_string(), "code {}", code);
    }
}

#[test]
fn header_text_agrees_with_to_str() {
    for b in 0u8..=255 {
        let bytes = [b'a', b, b'z'];
        if let Ok(v) = HeaderValue::from_bytes(&bytes) {
            assert_eq!(header_text(&bytes), v.to_str().ok().map(|s| s.to_string()), "byte {}", b);
        }
    }
}

fn reference_id(location: &str) -> Option<String> {
    let url = url::Url::parse(location).ok()?;
    let id = url.path_segments()?.rfind(|s| !s.is_empty())?;
    Some(id.to_string())
}

#[test]
fn simulation_id_agrees_with_path_segments() {
    let cases = [
        "https://api.worldquantbrain.com/simulations/abc",
        "https://api.worldquantbrain.com/simulations/abc/",
        "https://h/a//b//",
        "https://h",
        "https://h/",
        "https://h/x?y=/z#/w",
        "mailto:someone@example.com",
        "unix:/run/foo.socket",
        "file:///tmp/x",
        "http://h/%E1%BB%87",
    ];
    for c in cases {
        assert_eq!(created_simulation_id(Some(c.as_bytes())).ok(), reference_id(c), "{}", c);
    }
}
