//! The master-playlist bootstrap: a one-shot translation step.
//!
//! Given a master playlist's URL and its already-fetched text, select a
//! variant stream (deterministically the first one listed — this engine
//! does no bitrate negotiation), resolve its URI against the master URL,
//! and drive a [`MediaPlaylistHandler`] scoped to it. No polling or
//! segment state lives here; every operation forwards to the inner
//! handler.

use vstd::prelude::*;

use vstd::string::StringSliceAdditionalSpecFns;

use crate::action::{Action, ActionFactory, ActionId};
use crate::error::{Error, ErrorKind};
use crate::convert::SegmentConverter;
use crate::guard::{playlist_text_guarded, playlist_text_safe};
use crate::media_playlist_handler::{
    MediaPlaylistHandler, MediaPlaylistHandlerV, completed, initial_state, playlist_data_accepted,
    playlist_data_applied, timed_out,
};
use crate::playlist::{parse_master_playlist, parsed_master_playlist};
use crate::resolve::{resolve_url, resolved_url};

verus! {

/// Drives the media playlist of the first variant stream listed by a
/// master playlist.
#[derive(Debug)]
pub struct MasterPlaylistHandler {
    media_playlist_handler: MediaPlaylistHandler,
}

impl View for MasterPlaylistHandler {
    type V = MediaPlaylistHandlerV;

    closed spec fn view(&self) -> MediaPlaylistHandlerV {
        self.media_playlist_handler@
    }
}

impl MasterPlaylistHandler {
    /// Parses master playlist text, fails with `InvalidInput` when it is
    /// rejected, lists no variant stream, or the first variant's URI does
    /// not resolve against `url`; otherwise starts a media playlist
    /// handler on the resolved URL, scoped to stream id `0`.
    pub fn new(url: &str, m3u8: &str) -> (r: Result<Self, Error>)
        ensures
            !playlist_text_safe(m3u8.spec_bytes()) ==> (r matches Err(e) && e@.kind
                == ErrorKind::InvalidInput),
            playlist_text_safe(m3u8.spec_bytes()) ==> match parsed_master_playlist(
                m3u8.spec_bytes(),
            ) {
                Option::None => r matches Err(e) && e@.kind == ErrorKind::InvalidInput,
                Option::Some(uris) => if uris.len() == 0 {
                    r matches Err(e) && e@.kind == ErrorKind::InvalidInput
                } else {
                    match resolved_url(url@, uris[0]) {
                        Option::None => r matches Err(e) && e@.kind == ErrorKind::InvalidInput,
                        Option::Some(u) => r matches Ok(h) && h@ == initial_state(0, u)
                            && h@.wf(),
                    }
                },
            },
    {
        if !playlist_text_guarded(m3u8.as_bytes()) {
            return Err(
                Error::new(
                    ErrorKind::InvalidInput,
                    "playlist text outside the supported range".to_owned(),
                ),
            );
        }
        let master = match parse_master_playlist(m3u8.as_bytes()) {
            Ok(m) => m,
            Err(e) => {
                let mut e = e;
                e.track("master_playlist_handler", 0, "master playlist text rejected");
                return Err(e);
            },
        };
        if master.variant_stream_uris.len() == 0 {
            return Err(
                Error::new(
                    ErrorKind::InvalidInput,
                    "master playlist lists no variant stream".to_owned(),
                ),
            );
        }
        let media_playlist_url = match resolve_url(
            url,
            master.variant_stream_uris[0].as_str(),
        ) {
            Ok(u) => u,
            Err(e) => {
                let mut e = e;
                e.track("master_playlist_handler", 0, "variant stream uri did not resolve");
                return Err(e);
            },
        };
        let action_factory = ActionFactory::new(0);
        let media_playlist_handler = MediaPlaylistHandler::new(action_factory, media_playlist_url);
        Ok(MasterPlaylistHandler { media_playlist_handler })
    }

    /// Pops and returns the front of the inner handler's action queue.
    pub fn next_action(&mut self) -> (r: Option<Action>)
        ensures
            old(self)@.actions.len() == 0 ==> r is None && final(self)@ == old(self)@,
            old(self)@.actions.len() > 0 ==> {
                &&& r matches Some(a) && a@ == old(self)@.actions[0]
                &&& final(self)@ == (MediaPlaylistHandlerV {
                    actions: old(self)@.actions.drop_first(),
                    ..old(self)@
                })
            },
    {
        self.media_playlist_handler.next_action()
    }

    /// Pops and returns the front of the inner handler's output buffer.
    pub fn next_segment(&mut self) -> (r: Option<Vec<u8>>)
        ensures
            old(self)@.output.len() == 0 ==> r is None && final(self)@ == old(self)@,
            old(self)@.output.len() > 0 ==> {
                &&& r matches Some(b) && b@ == old(self)@.output[0]
                &&& final(self)@ == (MediaPlaylistHandlerV {
                    output: old(self)@.output.drop_first(),
                    ..old(self)@
                })
            },
    {
        self.media_playlist_handler.next_segment()
    }

    /// Forwards one data completion to the inner handler.
    pub fn handle_data<C: SegmentConverter>(
        &mut self,
        action_id: ActionId,
        data: &[u8],
        converter: &mut C,
    ) -> (r: Result<(), Error>)
        requires
            old(self)@.wf(),
        ensures
            final(self)@.wf(),
            action_id@ == old(self)@.fetch_playlist_action_id ==> {
                &&& (r is Ok <==> playlist_data_accepted(old(self)@, data@))
                &&& final(self)@ == playlist_data_applied(old(self)@, data@)
                &&& (r matches Err(e) ==> e@.kind == ErrorKind::InvalidInput)
            },
            action_id@ != old(self)@.fetch_playlist_action_id ==> {
                &&& (r is Ok ==> exists|init: Seq<u8>, media: Seq<u8>|
                    final(self)@ == #[trigger] completed(old(self)@, init, media))
                &&& (r is Err ==> final(self)@ == old(self)@)
            },
    {
        self.media_playlist_handler.handle_data(action_id, data, converter)
    }

    /// Forwards one timeout completion to the inner handler.
    pub fn handle_timeout(&mut self, action_id: ActionId) -> (r: Result<(), Error>)
        ensures
            r is Ok,
            final(self)@ == timed_out(old(self)@),
            old(self)@.wf() ==> final(self)@.wf(),
    {
        self.media_playlist_handler.handle_timeout(action_id)
    }
}

} // verus!
