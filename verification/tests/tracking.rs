use tracking_core::client::{classify_response, error_message, is_success_status};
use tracking_core::json::decode_tracking_body;
use tracking_core::model::{Checkpoint, FetchError, TrackingResult};
use tracking_core::render::display_label;
use tracking_core::text::u16_to_dec;
use tracking_core::url::{build_tracking_url, request_headers};
use tracking_core::vm::{track_number_key, track_provider_key, RenderState, ViewModel};

const BASE: &str =
    "https://corsanywhere-two.vercel.app/api/proxy?url=https://gdeposylka.ru/api/v4/tracker/";

#[test]
fn label_keeps_other_codes() {
    assert_eq!(display_label("IN_TRANSIT"), "IN_TRANSIT");
    assert_eq!(display_label("GTMS_DELIVERING"), "GTMS_DELIVERING");
    assert_eq!(display_label(""), "");
    assert_eq!(display_label("gtms_signed"), "gtms_signed");
}

#[test]
fn label_maps_signed_to_received() {
    assert_eq!(display_label("GTMS_SIGNED"), "Received");
}

#[test]
fn decode_preserves_count_and_order() {
    let body = "{\"slug\":\"x\",\"data\":{\"checkpoints\":[{\"time\":\"t1\",\"status_raw\":\"A\",\"extra\":1},{\"time\":\"t2\",\"status_raw\":\"B\"},{\"time\":\"t3\",\"status_raw\":\"C\"}]}}";
    let result = decode_tracking_body(body).expect("well-formed body must decode");
    assert_eq!(result.checkpoints.len(), 3);
    assert_eq!(result.checkpoints[0].time, "t1");
    assert_eq!(result.checkpoints[0].status_raw, "A");
    assert_eq!(result.checkpoints[1].time, "t2");
    assert_eq!(result.checkpoints[1].status_raw, "B");
    assert_eq!(result.checkpoints[2].time, "t3");
    assert_eq!(result.checkpoints[2].status_raw, "C");
}

#[test]
fn decode_empty_checkpoint_list() {
    let body = "{\"data\":{\"checkpoints\":[]}}";
    let result = decode_tracking_body(body).expect("empty list is well-formed");
    assert_eq!(result.checkpoints.len(), 0);
}

#[test]
fn decode_rejects_invalid_json() {
    assert!(decode_tracking_body("").is_err());
    assert!(decode_tracking_body("not json").is_err());
    assert!(decode_tracking_body("{\"data\":").is_err());
}

#[test]
fn decode_rejects_wrong_shape() {
    let cases = [
        "{}",
        "{\"data\":{}}",
        "{\"data\":null}",
        "{\"data\":{\"checkpoints\":\"x\"}}",
        "{\"data\":{\"checkpoints\":[{\"time\":\"t\"}]}}",
        "{\"data\":{\"checkpoints\":[{\"time\":1,\"status_raw\":\"A\"}]}}",
        "[1,2,3]",
    ];
    for body in cases {
        let r = decode_tracking_body(body);
        match r {
            Err(m) => assert_eq!(m, "missing or malformed data.checkpoints"),
            Ok(_) => panic!("wrong shape must not decode"),
        }
    }
}

#[test]
fn classify_success_statuses() {
    assert!(is_success_status(200));
    assert!(is_success_status(204));
    assert!(is_success_status(299));
    assert!(!is_success_status(199));
    assert!(!is_success_status(300));
    assert!(!is_success_status(404));
    assert!(!is_success_status(500));
}

#[test]
fn classify_http_error_carries_status_and_body() {
    match classify_response(500, String::from("upstream down")) {
        Err(FetchError::Http { status, body }) => {
            assert_eq!(status, 500);
            assert_eq!(body, "upstream down");
        }
        _ => panic!("non-success status must yield an Http error"),
    }
    match classify_response(404, String::from("no such tracker")) {
        Err(FetchError::Http { status, body }) => {
            assert_eq!(status, 404);
            assert_eq!(body, "no such tracker");
        }
        _ => panic!("non-success status must yield an Http error"),
    }
}

#[test]
fn classify_decode_error_never_partial_success() {
    let bad_bodies = ["not json", "{\"data\":{}}", "{\"wrong\":true}"];
    for body in bad_bodies {
        match classify_response(200, String::from(body)) {
            Err(FetchError::Decode { message }) => assert!(!message.is_empty()),
            Ok(_) => panic!("malformed body must never yield a success"),
            Err(_) => panic!("malformed body on a success status must yield Decode"),
        }
    }
}

#[test]
fn classify_decodes_success_body() {
    let body = "{\"data\":{\"checkpoints\":[{\"time\":\"t1\",\"status_raw\":\"A\"}]}}";
    match classify_response(200, String::from(body)) {
        Ok(result) => {
            assert_eq!(result.checkpoints.len(), 1);
            assert_eq!(result.checkpoints[0].time, "t1");
            assert_eq!(result.checkpoints[0].status_raw, "A");
        }
        Err(_) => panic!("well-formed body on a success status must decode"),
    }
}

#[test]
fn decimal_rendering() {
    assert_eq!(u16_to_dec(0), "0");
    assert_eq!(u16_to_dec(7), "7");
    assert_eq!(u16_to_dec(42), "42");
    assert_eq!(u16_to_dec(500), "500");
    assert_eq!(u16_to_dec(65535), "65535");
}

#[test]
fn error_messages() {
    let http = FetchError::Http { status: 502, body: String::from("bad gateway") };
    assert_eq!(error_message(&http), "Request failed: 502 - bad gateway");
    let decode = FetchError::Decode { message: String::from("m") };
    assert_eq!(error_message(&decode), "Failed to decode response body: m");
    let network = FetchError::Network { message: String::from("refused") };
    assert_eq!(error_message(&network), "Network error: refused");
    assert_eq!(error_message(&FetchError::Timeout), "Request timed out");
}

#[test]
fn url_for_plain_inputs() {
    let url = build_tracking_url("AER008741799", "cainiao");
    let expected = format!("{}cainiao/AER008741799", BASE);
    assert_eq!(url, expected);
}

#[test]
fn url_percent_encodes_reserved_and_unicode() {
    let url = build_tracking_url("a b", "c/\u{e4}");
    let expected = format!("{}c%2F%C3%A4/a%20b", BASE);
    assert_eq!(url, expected);

    let url = build_tracking_url("\u{20ac}", "\u{1f600}");
    let expected = format!("{}%F0%9F%98%80/%E2%82%AC", BASE);
    assert_eq!(url, expected);

    let url = build_tracking_url("ok-._~09AZaz", "p");
    let expected = format!("{}p/ok-._~09AZaz", BASE);
    assert_eq!(url, expected);

    let url = build_tracking_url("", "");
    let expected = format!("{}/", BASE);
    assert_eq!(url, expected);
}

#[test]
fn headers_hold_content_type_and_token() {
    let headers = request_headers(String::from("tok-123"));
    assert_eq!(headers.len(), 2);
    assert_eq!(headers[0].0, "Content-Type");
    assert_eq!(headers[0].1, "application/json");
    assert_eq!(headers[1].0, "X-Authorization-Token");
    assert_eq!(headers[1].1, "tok-123");
}

#[test]
fn store_keys_are_fixed() {
    assert_eq!(track_number_key(), "track_number");
    assert_eq!(track_provider_key(), "track_provider");
}

#[test]
fn init_uses_stored_fields() {
    let (vm, req) = ViewModel::init(Some(String::from("N1")), Some(String::from("P1")));
    assert_eq!(vm.track_number().as_str(), "N1");
    assert_eq!(vm.track_provider().as_str(), "P1");
    assert_eq!(req.generation, 0);
    assert_eq!(req.query.tracking_number, "N1");
    assert_eq!(req.query.provider, "P1");
}

fn one_checkpoint(time: &str, status_raw: &str) -> TrackingResult {
    TrackingResult {
        checkpoints: vec![Checkpoint {
            time: String::from(time),
            status_raw: String::from(status_raw),
        }],
    }
}

#[test]
fn last_requested_wins_when_stale_fetch_finishes_last() {
    let (mut vm, _req) = ViewModel::init(Some(String::from("OLD")), Some(String::from("P")));
    let req = vm.edit_track_number(String::from("NEW"));
    assert_eq!(req.generation, 1);
    assert_eq!(req.query.tracking_number, "NEW");

    // The fetch for the new query resolves first and is adopted.
    vm.complete_fetch(1, Ok(one_checkpoint("t-new", "NEW_STATUS")));
    // The superseded fetch for the old query resolves afterwards: discarded.
    vm.complete_fetch(0, Ok(one_checkpoint("t-old", "STALE_STATUS")));

    match vm.render() {
        RenderState::List(items) => {
            assert_eq!(items.len(), 1);
            assert_eq!(items[0].label, "NEW_STATUS");
            assert_eq!(items[0].time, "t-new");
        }
        _ => panic!("adopted success must render as a list"),
    }
}

#[test]
fn initial_load_end_to_end_shows_received() {
    // No stored fields: the store hands back the fixed sample query.
    let (mut vm, req) = ViewModel::init(None, None);
    assert_eq!(vm.track_number().as_str(), "AER008741799");
    assert_eq!(vm.track_provider().as_str(), "cainiao");
    assert_eq!(req.generation, 0);
    assert_eq!(req.query.tracking_number, "AER008741799");
    assert_eq!(req.query.provider, "cainiao");
    match vm.render() {
        RenderState::Loading => {}
        _ => panic!("nothing has resolved yet"),
    }

    let body = "{\"data\":{\"checkpoints\":[{\"time\":\"2024-01-01T00:00:00Z\",\"status_raw\":\"GTMS_SIGNED\"}]}}";
    let outcome = classify_response(200, String::from(body));
    vm.complete_fetch(req.generation, outcome);

    match vm.render() {
        RenderState::List(items) => {
            assert_eq!(items.len(), 1);
            assert_eq!(items[0].label, "Received");
            assert_eq!(items[0].time, "2024-01-01T00:00:00Z");
        }
        _ => panic!("the success must render as a one-entry list"),
    }
}

#[test]
fn http_500_end_to_end_shows_error_with_status() {
    let (mut vm, req) = ViewModel::init(None, None);
    let outcome = classify_response(500, String::from("upstream down"));
    vm.complete_fetch(req.generation, outcome);

    match vm.render() {
        RenderState::Error(message) => {
            assert!(message.contains("500"));
            assert!(message.contains("upstream down"));
        }
        RenderState::List(_) => panic!("an error must not show a checkpoint list"),
        RenderState::Loading => panic!("the outcome has resolved"),
    }
}

#[test]
fn edit_provider_supersedes_and_requests_new_fetch() {
    let (mut vm, _req) = ViewModel::init(Some(String::from("N")), Some(String::from("old-p")));
    let req = vm.edit_track_provider(String::from("new-p"));
    assert_eq!(req.generation, 1);
    assert_eq!(req.query.tracking_number, "N");
    assert_eq!(req.query.provider, "new-p");
    assert_eq!(vm.current_generation(), 1);

    // A completion under a stale token leaves the state untouched.
    vm.complete_fetch(0, Err(FetchError::Timeout));
    match vm.render() {
        RenderState::Loading => {}
        _ => panic!("a stale completion must be discarded"),
    }

    // The matching completion is adopted.
    vm.complete_fetch(1, Err(FetchError::Timeout));
    match vm.render() {
        RenderState::Error(message) => assert_eq!(message, "Request timed out"),
        _ => panic!("the matching completion must be adopted"),
    }
}
