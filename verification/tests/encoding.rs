use hls_player::action::{Action, ActionFactory};
use hls_player::boundary::{WasmBytes, WasmStr, wasm_bytes_len, wasm_bytes_new, wasm_str_len,
                           wasm_str_new};
use hls_player::error::{Error, ErrorKind};

#[test]
fn fetch_action_encodes_as_a_tagged_record() {
    let mut factory = ActionFactory::new(0);
    let action = factory.fetch_data(String::from("http://example.com/a.ts"));
    assert_eq!(
        action.to_json_string(),
        "{\"type\":\"FetchData\",\"action_id\":0,\"url\":\"http://example.com/a.ts\"}"
    );
}

#[test]
fn timeout_action_encodes_duration_in_milliseconds() {
    let mut factory = ActionFactory::new(2);
    let action = factory.set_timeout(4000);
    assert_eq!(
        action.to_json_string(),
        "{\"type\":\"SetTimeout\",\"action_id\":8589934592,\"duration\":4000}"
    );
}

#[test]
fn action_url_is_escaped() {
    let mut factory = ActionFactory::new(0);
    let action = factory.fetch_data(String::from("http://example.com/\"x\"\\y"));
    assert_eq!(
        action.to_json_string(),
        "{\"type\":\"FetchData\",\"action_id\":0,\"url\":\"http://example.com/\\\"x\\\"\\\\y\"}"
    );
}

#[test]
fn error_encodes_kind_reason_and_empty_trace() {
    let err = Error::new(ErrorKind::Other, String::from("boom"));
    assert_eq!(
        err.to_json_string(),
        "{\"kind\":\"Other\",\"reason\":\"boom\",\"trace\":[]}"
    );
}

#[test]
fn error_trace_entries_carry_message_only_when_present() {
    let mut err = Error::new(ErrorKind::InvalidInput, String::from("line 1\nline 2"));
    err.track("media_playlist_handler", 0, "");
    err.track("session", 12, "while starting");
    assert_eq!(
        err.to_json_string(),
        concat_two(
            "{\"kind\":\"InvalidInput\",\"reason\":\"line 1\\nline 2\",\"trace\":[",
            "{\"file\":\"media_playlist_handler\",\"line\":0},{\"file\":\"session\",\"line\":12,\"message\":\"while starting\"}]}"
        )
    );
}

fn concat_two(a: &str, b: &str) -> String {
    let mut s = String::from(a);
    s.push_str(b);
    s
}

#[test]
fn control_characters_escape_as_unicode() {
    let err = Error::new(ErrorKind::Other, String::from("a\u{1}b\tc"));
    assert_eq!(
        err.to_json_string(),
        "{\"kind\":\"Other\",\"reason\":\"a\\u0001b\\tc\",\"trace\":[]}"
    );
}

#[test]
fn boundary_buffers_report_their_sizes() {
    let s = wasm_str_new(5);
    assert_eq!(wasm_str_len(s), 5);
    let b = wasm_bytes_new(3);
    assert_eq!(wasm_bytes_len(b), 3);

    let s = WasmStr::from(String::from("héllo"));
    assert_eq!(s.as_str(), "héllo");
    // The length crossing the boundary is the byte length.
    assert_eq!(wasm_str_len(s), 6);

    let b = WasmBytes::from(vec![1u8, 2, 3, 4]);
    assert_eq!(b.as_slice(), &[1, 2, 3, 4]);
    assert_eq!(wasm_bytes_len(b), 4);
}

#[test]
fn zeroed_buffers_start_zeroed() {
    let s = WasmStr::new(3);
    assert_eq!(s.as_str(), "\0\0\0");
    let b = WasmBytes::new(2);
    assert_eq!(b.as_slice(), &[0u8, 0]);
    let v = b.into_vec();
    assert_eq!(v, vec![0u8, 0]);
}

#[test]
fn drained_action_queue_stays_drained() {
    let mut factory = ActionFactory::new(1);
    let first = factory.fetch_data(String::from("http://example.com/x"));
    match first {
        Action::FetchData { ref url, .. } => assert_eq!(url, "http://example.com/x"),
        ref other => panic!("expected a fetch, got {:?}", other),
    }
}
