use hls_player::action::{Action, ActionFactory, ActionId};
use hls_player::convert::SegmentConverter;
use hls_player::error::{Error, ErrorKind};
use hls_player::master_playlist_handler::MasterPlaylistHandler;
use hls_player::media_playlist_handler::MediaPlaylistHandler;
use hls_player::playlist::{MediaPlaylistDesc, SegmentDesc};
use mse_fmp4::io::WriteTo;

const BASE: &str = "http://example.com/live/media.m3u8";

/// The real converter, backed by `mse_fmp4`, for tests whose payloads it
/// is known to reject cleanly.
struct TsConverter;

impl SegmentConverter for TsConverter {
    fn convert(&mut self, ts_segment: &[u8]) -> Result<(Vec<u8>, Vec<u8>), Error> {
        let (init, media) = mse_fmp4::mpeg2_ts::to_fmp4(mpeg2ts::ts::TsPacketReader::new(
            ts_segment,
        ))
        .map_err(|e| Error::new(ErrorKind::InvalidInput, e.to_string()))?;
        let (mut iv, mut mv) = (Vec::new(), Vec::new());
        init.write_to(&mut iv)
            .and_then(|_| media.write_to(&mut mv))
            .map_err(|e| Error::new(ErrorKind::Other, e.to_string()))?;
        Ok((iv, mv))
    }
}

/// A fake converter handing back fixed chunks, as a host test double.
struct StubConverter {
    init: Vec<u8>,
    media: Vec<u8>,
}

impl SegmentConverter for StubConverter {
    fn convert(&mut self, _ts_segment: &[u8]) -> Result<(Vec<u8>, Vec<u8>), Error> {
        Ok((self.init.clone(), self.media.clone()))
    }
}

fn live_playlist(media_sequence: u64, target: u64, seg_duration: u64, names: &[&str]) -> Vec<u8> {
    let mut text = String::new();
    text.push_str("#EXTM3U\n#EXT-X-VERSION:3\n");
    text.push_str(&format!("#EXT-X-TARGETDURATION:{}\n", target));
    text.push_str(&format!("#EXT-X-MEDIA-SEQUENCE:{}\n", media_sequence));
    for name in names {
        text.push_str(&format!("#EXTINF:{},\n{}\n", seg_duration, name));
    }
    text.into_bytes()
}

fn fresh_handler() -> (MediaPlaylistHandler, ActionId) {
    let mut handler = MediaPlaylistHandler::new(ActionFactory::new(0), String::from(BASE));
    let bootstrap = handler.next_action().expect("bootstrap fetch expected");
    (handler, bootstrap.id())
}

#[test]
fn refresh_fetches_first_new_segment_and_rearms_tightened() {
    // Target duration 10 s, media sequence 5, three 4 s segments: one
    // immediate fetch for segment 5, a timeout tightened to 4 s, and
    // segments 6 and 7 left queued but not in flight.
    let (mut handler, playlist_id) = fresh_handler();
    let text = live_playlist(5, 10, 4, &["s5.ts", "s6.ts", "s7.ts"]);
    handler.handle_data(playlist_id, &text, &mut TsConverter).expect("refresh must succeed");

    match handler.next_action() {
        Some(Action::FetchData { url, .. }) => {
            assert_eq!(url, "http://example.com/live/s5.ts");
        }
        other => panic!("expected the fetch of segment 5, got {:?}", other),
    }
    match handler.next_action() {
        Some(Action::SetTimeout { duration_ms, .. }) => assert_eq!(duration_ms, 4000),
        other => panic!("expected the re-armed poll, got {:?}", other),
    }
    assert!(handler.next_action().is_none());
    assert!(handler.next_segment().is_none());
}

#[test]
fn completion_emits_init_once_and_pipelines_the_next_fetch() {
    // Completing segment 5 puts the initialization chunk first, then the
    // media chunk, and requests segment 6 — exactly one fetch ahead.
    let (mut handler, playlist_id) = fresh_handler();
    let text = live_playlist(5, 10, 4, &["s5.ts", "s6.ts", "s7.ts"]);
    handler.handle_data(playlist_id, &text, &mut TsConverter).expect("refresh must succeed");
    while handler.next_action().is_some() {}

    handler.complete_segment(vec![0xA], vec![0xB, 0xB]);
    assert_eq!(handler.next_segment(), Some(vec![0xA]));
    assert_eq!(handler.next_segment(), Some(vec![0xB, 0xB]));
    assert_eq!(handler.next_segment(), None);
    match handler.next_action() {
        Some(Action::FetchData { url, .. }) => {
            assert_eq!(url, "http://example.com/live/s6.ts");
        }
        other => panic!("expected the fetch of segment 6, got {:?}", other),
    }
    assert!(handler.next_action().is_none());

    // The second completion emits no second initialization chunk and
    // requests segment 7.
    handler.complete_segment(vec![0xA], vec![0xC]);
    assert_eq!(handler.next_segment(), Some(vec![0xC]));
    assert_eq!(handler.next_segment(), None);
    match handler.next_action() {
        Some(Action::FetchData { url, .. }) => {
            assert_eq!(url, "http://example.com/live/s7.ts");
        }
        other => panic!("expected the fetch of segment 7, got {:?}", other),
    }
}

#[test]
fn refresh_evicts_entries_the_window_slid_past() {
    // With segments 5, 6 and 7 queued, a refresh starting at media
    // sequence 8 evicts all three before adding new entries: the queue
    // is empty again, so segment 8's fetch is issued immediately.
    let (mut handler, playlist_id) = fresh_handler();
    let first = live_playlist(5, 10, 4, &["s5.ts", "s6.ts", "s7.ts"]);
    handler.handle_data(playlist_id, &first, &mut TsConverter).expect("first refresh must succeed");
    while handler.next_action().is_some() {}

    let second = live_playlist(8, 10, 4, &["s8.ts", "s9.ts"]);
    handler.handle_data(playlist_id, &second, &mut TsConverter).expect("second refresh must succeed");
    match handler.next_action() {
        Some(Action::FetchData { url, .. }) => {
            assert_eq!(url, "http://example.com/live/s8.ts");
        }
        other => panic!("expected the fetch of segment 8, got {:?}", other),
    }
    match handler.next_action() {
        Some(Action::SetTimeout { .. }) => {}
        other => panic!("expected the re-armed poll, got {:?}", other),
    }
    assert!(handler.next_action().is_none());
}

#[test]
fn refresh_skips_segments_at_or_below_the_watermark() {
    // A second refresh repeating sequence numbers 5..=7 and adding 8
    // enqueues only segment 8; 5..=7 were already enqueued.
    let (mut handler, playlist_id) = fresh_handler();
    let first = live_playlist(5, 10, 4, &["s5.ts", "s6.ts", "s7.ts"]);
    handler.handle_data(playlist_id, &first, &mut TsConverter).expect("first refresh must succeed");
    while handler.next_action().is_some() {}

    let second = live_playlist(5, 10, 4, &["s5.ts", "s6.ts", "s7.ts", "s8.ts"]);
    handler.handle_data(playlist_id, &second, &mut TsConverter).expect("second refresh must succeed");
    // Segment 5 is still in flight at the front, so no new fetch starts.
    match handler.next_action() {
        Some(Action::SetTimeout { .. }) => {}
        other => panic!("expected only the re-armed poll, got {:?}", other),
    }
    assert!(handler.next_action().is_none());
}

#[test]
fn timeout_rearms_the_playlist_fetch_unconditionally() {
    // Any timeout completion — even one with an unknown identifier —
    // enqueues a fresh playlist fetch and records it as the outstanding
    // one; data delivered under the new identifier is playlist data.
    let (mut handler, _old_playlist_id) = fresh_handler();
    handler.handle_timeout(ActionId::from(999u64)).expect("timeouts never fail");
    let refetch_id = match handler.next_action() {
        Some(Action::FetchData { action_id, url }) => {
            assert_eq!(url, BASE);
            action_id
        }
        other => panic!("expected the playlist refetch, got {:?}", other),
    };
    let text = live_playlist(1, 10, 4, &["s1.ts"]);
    handler.handle_data(refetch_id, &text, &mut TsConverter).expect("refresh must succeed");
    match handler.next_action() {
        Some(Action::FetchData { url, .. }) => {
            assert_eq!(url, "http://example.com/live/s1.ts");
        }
        other => panic!("expected the fetch of segment 1, got {:?}", other),
    }
}

#[test]
fn malformed_playlist_text_is_rejected_and_state_kept() {
    let (mut handler, playlist_id) = fresh_handler();
    let err = handler
        .handle_data(playlist_id, b"not a playlist", &mut TsConverter)
        .expect_err("malformed playlist must be rejected");
    assert_eq!(err.kind(), ErrorKind::InvalidInput);
    // Nothing was enqueued by the failing call.
    assert!(handler.next_action().is_none());
    assert!(handler.next_segment().is_none());

    let invalid_utf8 = [0xFFu8, 0xFE, 0x00];
    let err = handler
        .handle_data(playlist_id, &invalid_utf8, &mut TsConverter)
        .expect_err("malformed UTF-8 must be rejected");
    assert_eq!(err.kind(), ErrorKind::InvalidInput);
}

#[test]
fn malformed_segment_payload_is_rejected_and_state_kept() {
    // A completion under any other identifier is segment data; garbage
    // transport bytes are rejected by the converter and the handler is
    // left exactly as it was.
    let (mut handler, playlist_id) = fresh_handler();
    let text = live_playlist(5, 10, 4, &["s5.ts"]);
    handler.handle_data(playlist_id, &text, &mut TsConverter).expect("refresh must succeed");
    while handler.next_action().is_some() {}

    let err = handler
        .handle_data(ActionId::from(1u64), b"definitely not mpeg-ts", &mut TsConverter)
        .expect_err("garbage transport bytes must be rejected");
    assert!(err.kind() == ErrorKind::InvalidInput || err.kind() == ErrorKind::Other);
    // The failing call neither consumed the queue nor produced output.
    assert!(handler.next_action().is_none());
    assert!(handler.next_segment().is_none());
}

#[test]
fn apply_playlist_resolves_against_the_base_url() {
    // The resolver joins relative URIs against the playlist's own URL;
    // absolute URIs pass through unchanged.
    let (mut handler, _playlist_id) = fresh_handler();
    let desc = MediaPlaylistDesc {
        media_sequence: 1,
        target_duration_ms: 10_000,
        segments: vec![
            SegmentDesc { uri: String::from("../other/a.ts"), duration_ms: 3000 },
            SegmentDesc { uri: String::from("http://cdn.example.net/b.ts"), duration_ms: 9000 },
        ],
    };
    handler.apply_playlist(&desc).expect("refresh must succeed");
    match handler.next_action() {
        Some(Action::FetchData { url, .. }) => {
            assert_eq!(url, "http://example.com/other/a.ts");
        }
        other => panic!("expected the fetch of the first segment, got {:?}", other),
    }
    match handler.next_action() {
        Some(Action::SetTimeout { duration_ms, .. }) => assert_eq!(duration_ms, 3000),
        other => panic!("expected the re-armed poll, got {:?}", other),
    }
}

#[test]
fn master_bootstrap_selects_the_first_variant() {
    let master = b"#EXTM3U\n#EXT-X-STREAM-INF:BANDWIDTH=1280000,CODECS=\"avc1.4d401f\"\nlow/media.m3u8\n#EXT-X-STREAM-INF:BANDWIDTH=2560000,CODECS=\"avc1.4d401f\"\nhigh/media.m3u8\n";
    let mut handler = MasterPlaylistHandler::new(
        "http://example.com/master.m3u8",
        std::str::from_utf8(master).unwrap(),
    )
    .expect("master bootstrap must succeed");
    match handler.next_action() {
        Some(Action::FetchData { action_id, url }) => {
            assert_eq!(action_id, ActionId::from(0u64));
            assert_eq!(url, "http://example.com/low/media.m3u8");
        }
        other => panic!("expected the media playlist fetch, got {:?}", other),
    }
    assert!(handler.next_action().is_none());
}

#[test]
fn master_without_variants_is_invalid_input() {
    let err = MasterPlaylistHandler::new("http://example.com/master.m3u8", "#EXTM3U\n")
        .expect_err("a master playlist without variants must be rejected");
    assert_eq!(err.kind(), ErrorKind::InvalidInput);
}

#[test]
fn unresolvable_base_url_is_invalid_input() {
    let mut handler =
        MediaPlaylistHandler::new(ActionFactory::new(0), String::from("not a url"));
    let bootstrap = handler.next_action().expect("bootstrap fetch expected");
    let text = live_playlist(1, 10, 4, &["s1.ts"]);
    let err = handler
        .handle_data(bootstrap.id(), &text, &mut TsConverter)
        .expect_err("segment urls cannot resolve against a malformed base");
    assert_eq!(err.kind(), ErrorKind::InvalidInput);
    assert!(handler.next_action().is_none());
}

#[test]
fn segment_completion_through_handle_data_books_stub_chunks() {
    // The converter is a substitutable collaborator: a stub converter's
    // chunks are booked exactly as a real conversion's would be.
    let (mut handler, playlist_id) = fresh_handler();
    let text = live_playlist(5, 10, 4, &["s5.ts", "s6.ts"]);
    handler.handle_data(playlist_id, &text, &mut TsConverter).expect("refresh must succeed");
    while handler.next_action().is_some() {}

    let mut stub = StubConverter { init: vec![0xA], media: vec![0xB] };
    handler
        .handle_data(ActionId::from(1u64), b"segment payload", &mut stub)
        .expect("the stub converter accepts everything");
    assert_eq!(handler.next_segment(), Some(vec![0xA]));
    assert_eq!(handler.next_segment(), Some(vec![0xB]));
    match handler.next_action() {
        Some(Action::FetchData { url, .. }) => {
            assert_eq!(url, "http://example.com/live/s6.ts");
        }
        other => panic!("expected the fetch of segment 6, got {:?}", other),
    }
}

#[test]
fn playlist_text_outside_the_guarded_domain_is_rejected() {
    // Durations the parser's arithmetic does not support are rejected by
    // the engine before the delegated parser ever sees them.
    let evil: &[&[u8]] = &[
        b"#EXTM3U\n#EXT-X-TARGETDURATION:10\n#EXTINF:inf,\ns.ts\n",
        b"#EXTM3U\n#EXT-X-TARGETDURATION:10\n#EXTINF:-1,\ns.ts\n",
        b"#EXTM3U\n#EXT-X-TARGETDURATION:10\n#EXTINF:4e300,\ns.ts\n",
        b"#EXTM3U\n#EXT-X-TARGETDURATION:10\n#EXT-X-DATERANGE:ID=\"d\",DURATION=1e300\n#EXTINF:4,\ns.ts\n",
        b"#EXTM3U\n#EXT-X-TARGETDURATION:10\n#EXT-X-DATERANGE:ID=\"d\",PLANNED-DURATION=inf\n#EXTINF:4,\ns.ts\n",
        b"#EXTM3U\n#EXT-X-TARGETDURATION:10\n#EXT-X-DATERANGE:ID=\"\n#EXTINF:4,\ns.ts\n",
        b"#EXTM3U\n#EXT-X-TARGETDURATION:10\n#EXT-X-MEDIA-SEQUENCE:18446744073709551615\n#EXTINF:4,\ns.ts\n",
        b"#EXTM3U\n#EXT-X-TARGETDURATION:10\n#EXT-X-BYTERANGE:18446744073709551615@18446744073709551615\n#EXTINF:4,\ns.ts\n",
        // The parser trims each line before dispatching on the tag, so a
        // whitespace-prefixed tag line is still parsed: the guard judges
        // the trimmed span.
        b"#EXTM3U\n\t#EXTINF:-1,\nseg.ts\n#EXT-X-TARGETDURATION:10\n",
        b"#EXTM3U\n  #EXTINF:inf,\ns.ts\n#EXT-X-TARGETDURATION:10\n",
        b"#EXTM3U\n#EXT-X-TARGETDURATION:10\n \t#EXT-X-DATERANGE:ID=\"d\",DURATION=9e99\n#EXTINF:4,\ns.ts\n",
        b"#EXTM3U\n#EXT-X-TARGETDURATION:10\n\t#EXT-X-KEY:METHOD=AES-128,URI=\"\n#EXTINF:4,\ns.ts\n",
    ];
    for text in evil {
        let (mut handler, playlist_id) = fresh_handler();
        let err = handler
            .handle_data(playlist_id, text, &mut TsConverter)
            .expect_err("text outside the guarded domain must be rejected");
        assert_eq!(err.kind(), ErrorKind::InvalidInput);
        assert!(handler.next_action().is_none());
    }

    // The same guard protects the master bootstrap.
    let err = MasterPlaylistHandler::new(
        "http://example.com/master.m3u8",
        "#EXTM3U\n#EXTINF:inf,\nx\n",
    )
    .expect_err("master text outside the guarded domain must be rejected");
    assert_eq!(err.kind(), ErrorKind::InvalidInput);
}

#[test]
fn ordinary_playlists_pass_the_guard() {
    // A playlist with fractional durations, a well-formed date range and
    // quoted attributes is inside the guarded domain.
    let text = b"#EXTM3U\n#EXT-X-VERSION:3\n#EXT-X-TARGETDURATION:10\n#EXT-X-MEDIA-SEQUENCE:5\n#EXT-X-DATERANGE:ID=\"splice\",START-DATE=\"2020-01-01T00:00:00Z\",DURATION=59.993\n#EXTINF:9.009,\ns5.ts\n";
    let (mut handler, playlist_id) = fresh_handler();
    handler
        .handle_data(playlist_id, text, &mut TsConverter)
        .expect("an ordinary playlist must be accepted");
    match handler.next_action() {
        Some(Action::FetchData { url, .. }) => {
            assert_eq!(url, "http://example.com/live/s5.ts");
        }
        other => panic!("expected the fetch of segment 5, got {:?}", other),
    }
}

#[test]
fn guard_leaves_parseable_playlists_alone() {
    // Long digit runs in quoted attribute values, large bandwidths, long
    // fractional durations and whitespace-prefixed tag lines all parse,
    // and the guard does not stand in their way.
    let text = b"#EXTM3U\n#EXT-X-VERSION:3\n  #EXT-X-TARGETDURATION:10\n#EXT-X-MEDIA-SEQUENCE:5\n#EXT-X-KEY:METHOD=AES-128,URI=\"https://keys.example.com/asset/12345678901234567890/key\"\n#EXT-X-DATERANGE:ID=\"splice\",START-DATE=\"2020-01-01T00:00:00Z\",X-COM-DURATION=\"0x123456789012345678\",DURATION= 59.993 ,PLANNED-DURATION=60.1\n#EXTINF:4.00000000000000000001,\ns5.ts\n";
    let (mut handler, playlist_id) = fresh_handler();
    handler
        .handle_data(playlist_id, text, &mut TsConverter)
        .expect("a parseable playlist must be accepted");
    match handler.next_action() {
        Some(Action::FetchData { url, .. }) => {
            assert_eq!(url, "http://example.com/live/s5.ts");
        }
        other => panic!("expected the fetch of segment 5, got {:?}", other),
    }

    let master = "#EXTM3U\n#EXT-X-STREAM-INF:BANDWIDTH=1234567890123456789,CODECS=\"avc1.4d401f\"\nlow/media.m3u8\n";
    let mut handler = MasterPlaylistHandler::new("http://example.com/master.m3u8", master)
        .expect("a large bandwidth must not be rejected");
    match handler.next_action() {
        Some(Action::FetchData { url, .. }) => {
            assert_eq!(url, "http://example.com/low/media.m3u8");
        }
        other => panic!("expected the media playlist fetch, got {:?}", other),
    }
}
