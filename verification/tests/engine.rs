use hls_player::action::{Action, ActionFactory, ActionId};
use hls_player::convert::SegmentConverter;
use hls_player::error::{Error, ErrorKind};
use hls_player::media_playlist_handler::MediaPlaylistHandler;
use hls_player::player::HlsPlayer;

fn id_of(action: &Action) -> ActionId {
    action.id()
}

/// A converter that rejects everything, for driving the session's
/// playlist paths.
struct NoConverter;

impl SegmentConverter for NoConverter {
    fn convert(&mut self, _ts_segment: &[u8]) -> Result<(Vec<u8>, Vec<u8>), Error> {
        Err(Error::new(ErrorKind::Other, String::from("no converter installed")))
    }
}

#[test]
fn bootstrap_fetch_is_first_and_only_action() {
    // A fresh handler enqueues exactly one action: the bootstrap fetch of
    // the playlist itself, under the factory's first identifier.
    let factory = ActionFactory::new(0);
    let mut handler = MediaPlaylistHandler::new(
        factory,
        String::from("http://example.com/live/media.m3u8"),
    );
    match handler.next_action() {
        Some(Action::FetchData { action_id, url }) => {
            assert_eq!(action_id, ActionId::from(0u64));
            assert_eq!(url, "http://example.com/live/media.m3u8");
        }
        other => panic!("expected the bootstrap fetch, got {:?}", other),
    }
    assert!(handler.next_action().is_none());
    assert!(handler.next_action().is_none());
    assert!(handler.next_segment().is_none());
}

#[test]
fn second_play_fails_with_invalid_input() {
    let media = "#EXTM3U\n#EXT-X-TARGETDURATION:10\n#EXT-X-VERSION:3\n#EXTINF:4,\nseg0.ts\n";
    let mut player = HlsPlayer::new();
    player
        .play_media_playlist("http://example.com/live/media.m3u8", media)
        .expect("first play must succeed");
    let err = player
        .play_media_playlist("http://example.com/live/media.m3u8", media)
        .expect_err("second play must fail");
    assert_eq!(err.kind(), ErrorKind::InvalidInput);
}

#[test]
fn session_is_a_no_op_before_play() {
    let mut player = HlsPlayer::new();
    assert!(player.next_action().is_none());
    assert!(player.next_segment().is_none());
    assert!(player.handle_timeout(ActionId::from(7u64)).is_ok());
    assert!(player.handle_data(ActionId::from(7u64), b"anything", &mut NoConverter).is_ok());
    assert!(player.next_action().is_none());
}

#[test]
fn session_forwards_operations_to_the_active_handler() {
    let media = "#EXTM3U\n#EXT-X-TARGETDURATION:10\n#EXT-X-MEDIA-SEQUENCE:1\n#EXTINF:4,\ns1.ts\n";
    let mut player = HlsPlayer::new();
    player
        .play_media_playlist("http://example.com/live/media.m3u8", media)
        .expect("play must succeed");

    // The initial text is applied as the first refresh: segment 1's
    // fetch comes first, then the re-armed poll, all under the fresh
    // stream scope.
    match player.next_action() {
        Some(Action::FetchData { action_id, url }) => {
            assert_eq!(url, "http://example.com/live/s1.ts");
            assert_eq!(action_id.media_playlist_id(), 1);
        }
        other => panic!("expected the fetch of segment 1, got {:?}", other),
    }
    match player.next_action() {
        Some(Action::SetTimeout { duration_ms, .. }) => assert_eq!(duration_ms, 4000),
        other => panic!("expected the re-armed poll, got {:?}", other),
    }
    assert!(player.next_action().is_none());

    // A timeout completion re-arms the playlist fetch through the
    // session as well.
    player.handle_timeout(ActionId::from(0u64)).expect("timeouts never fail");
    match player.next_action() {
        Some(Action::FetchData { url, .. }) => {
            assert_eq!(url, "http://example.com/live/media.m3u8");
        }
        other => panic!("expected the playlist refetch, got {:?}", other),
    }
}

#[test]
fn play_dispatches_on_the_target_duration_tag() {
    // Text carrying #EXT-X-TARGETDURATION is a media playlist; anything
    // else is treated as a master playlist.
    let media = "#EXTM3U\n#EXT-X-TARGETDURATION:10\n#EXT-X-MEDIA-SEQUENCE:1\n#EXTINF:4,\ns1.ts\n";
    let mut player = HlsPlayer::new();
    player.play("http://example.com/live/media.m3u8", media).expect("play must succeed");
    match player.next_action() {
        Some(Action::FetchData { action_id, url }) => {
            assert_eq!(url, "http://example.com/live/s1.ts");
            assert_eq!(action_id.media_playlist_id(), 1);
        }
        other => panic!("expected the fetch of segment 1, got {:?}", other),
    }

    let master = "#EXTM3U\n#EXT-X-STREAM-INF:BANDWIDTH=1280000\nchunks.m3u8\n";
    let mut player = HlsPlayer::new();
    player.play("http://example.com/master.m3u8", master).expect("play must succeed");
    match player.next_action() {
        Some(Action::FetchData { action_id, url }) => {
            assert_eq!(action_id.media_playlist_id(), 0);
            assert_eq!(url, "http://example.com/chunks.m3u8");
        }
        other => panic!("expected the media playlist fetch, got {:?}", other),
    }
}

#[test]
fn session_bootstraps_a_master_playlist() {
    let master = "#EXTM3U\n#EXT-X-STREAM-INF:BANDWIDTH=1280000\nchunks.m3u8\n";
    let mut player = HlsPlayer::new();
    player
        .play_master_playlist("http://example.com/master.m3u8", master)
        .expect("master play must succeed");
    match player.next_action() {
        Some(Action::FetchData { action_id, url }) => {
            assert_eq!(action_id, ActionId::from(0u64));
            assert_eq!(url, "http://example.com/chunks.m3u8");
        }
        other => panic!("expected the media playlist fetch, got {:?}", other),
    }
    assert!(player.next_action().is_none());
}

#[test]
fn factory_allocates_increasing_ids_within_its_scope() {
    let mut factory = ActionFactory::new(3);
    assert_eq!(factory.media_playlist_id(), 3);
    let a = factory.fetch_data(String::from("http://example.com/a"));
    let b = factory.set_timeout(4000);
    let c = factory.fetch_data(String::from("http://example.com/c"));
    assert!(id_of(&a) < id_of(&b));
    assert!(id_of(&b) < id_of(&c));
    assert_eq!(id_of(&a).media_playlist_id(), 3);
    assert_eq!(id_of(&c).media_playlist_id(), 3);
}

#[test]
fn action_id_scope_partition() {
    let base = ActionId::default();
    assert_eq!(base.media_playlist_id(), 0);
    let next_scope = base.clone_for_new_playlist();
    assert_eq!(next_scope.media_playlist_id(), 1);
    assert!(base < next_scope);
    let mut counter = next_scope;
    let first = counter.next();
    let second = counter.next();
    assert_eq!(first, next_scope);
    assert!(first < second);
    assert_eq!(second.media_playlist_id(), 1);
}
