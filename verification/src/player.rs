//! The session state machine: the top-level object the host drives.
//!
//! A session holds exactly one of three states — not yet started, driving
//! a master playlist, or driving a media playlist directly — and forwards
//! every operation to the active handler. The one transition happens once,
//! out of the not-started state, through a `play` call; replaying `play`
//! on a started session fails with `InvalidInput`. Before the session is
//! started, the drain and completion operations are no-ops that report
//! nothing available.

use vstd::prelude::*;

use vstd::string::StringSliceAdditionalSpecFns;

use crate::action::{Action, ActionFactory, ActionId, ActionV, SCOPE_BASE};
use crate::error::{Error, ErrorKind};
use crate::convert::SegmentConverter;
use crate::guard::playlist_text_safe;
use crate::master_playlist_handler::MasterPlaylistHandler;
use crate::media_playlist_handler::{
    MediaPlaylistHandler, MediaPlaylistHandlerV, completed, initial_state,
    playlist_data_accepted, playlist_data_applied, timed_out,
};
use crate::playlist::{parsed_master_playlist, parsed_media_playlist};
use crate::resolve::resolved_url;
use crate::text::{contains_seq, contains_str};

verus! {

/// Which handler, if any, the session is driving.
#[derive(Debug)]
pub enum SessionState {
    NotStarted,
    MasterPlaylistActive(MasterPlaylistHandler),
    MediaPlaylistActive(MediaPlaylistHandler),
}

/// The mathematical value of an [`HlsPlayer`]: the state tag, with the
/// active handler's value where there is one.
pub enum HlsPlayerV {
    NotStarted,
    MasterPlaylistActive(MediaPlaylistHandlerV),
    MediaPlaylistActive(MediaPlaylistHandlerV),
}

impl HlsPlayerV {
    /// The active handler's value, if the session is started.
    pub open spec fn inner(self) -> Option<MediaPlaylistHandlerV> {
        match self {
            HlsPlayerV::NotStarted => Option::None,
            HlsPlayerV::MasterPlaylistActive(v) => Option::Some(v),
            HlsPlayerV::MediaPlaylistActive(v) => Option::Some(v),
        }
    }

    /// The same session with the active handler's value replaced; a
    /// session that is not started is returned unchanged.
    pub open spec fn with_inner(self, v: MediaPlaylistHandlerV) -> HlsPlayerV {
        match self {
            HlsPlayerV::NotStarted => HlsPlayerV::NotStarted,
            HlsPlayerV::MasterPlaylistActive(_) => HlsPlayerV::MasterPlaylistActive(v),
            HlsPlayerV::MediaPlaylistActive(_) => HlsPlayerV::MediaPlaylistActive(v),
        }
    }

    /// Well-formedness: the active handler, if any, is well-formed.
    pub open spec fn wf(self) -> bool {
        match self.inner() {
            Option::None => true,
            Option::Some(v) => v.wf(),
        }
    }
}

/// What starting a session on media playlist text leaves behind: on the
/// one hand the outcome of the first refresh applied to a fresh handler
/// under the new stream scope (its bootstrap fetch already consumed —
/// the text in hand replaces it), on the other the error that leaves the
/// session untouched.
pub open spec fn media_play_result(
    pre: HlsPlayerV,
    post: HlsPlayerV,
    r: Result<(), Error>,
    url: Seq<char>,
    text: Seq<u8>,
) -> bool {
    let v1 = MediaPlaylistHandlerV {
        actions: Seq::<ActionV>::empty(),
        ..initial_state(SCOPE_BASE, url)
    };
    &&& (r is Ok <==> playlist_data_accepted(v1, text))
    &&& (r is Ok ==> post == HlsPlayerV::MediaPlaylistActive(playlist_data_applied(v1, text)))
    &&& (r matches Err(e) ==> e@.kind == ErrorKind::InvalidInput && post == pre)
}

/// What starting a session on master playlist text leaves behind: a
/// handler for the first variant stream's resolved URL under stream
/// scope `0`, or the error that leaves the session untouched.
pub open spec fn master_play_result(
    pre: HlsPlayerV,
    post: HlsPlayerV,
    r: Result<(), Error>,
    url: Seq<char>,
    text: Seq<u8>,
) -> bool {
    if !playlist_text_safe(text) {
        r matches Err(e) && e@.kind == ErrorKind::InvalidInput && post == pre
    } else {
        match parsed_master_playlist(text) {
            Option::None => r matches Err(e) && e@.kind == ErrorKind::InvalidInput && post
                == pre,
            Option::Some(uris) => if uris.len() == 0 {
                r matches Err(e) && e@.kind == ErrorKind::InvalidInput && post == pre
            } else {
                match resolved_url(url, uris[0]) {
                    Option::None => r matches Err(e) && e@.kind == ErrorKind::InvalidInput
                        && post == pre,
                    Option::Some(u) => r is Ok && post == HlsPlayerV::MasterPlaylistActive(
                        initial_state(0, u),
                    ),
                }
            },
        }
    }
}

/// The top-level session object exposed to the host.
#[derive(Debug)]
pub struct HlsPlayer {
    state: SessionState,
}

impl View for HlsPlayer {
    type V = HlsPlayerV;

    closed spec fn view(&self) -> HlsPlayerV {
        match self.state {
            SessionState::NotStarted => HlsPlayerV::NotStarted,
            SessionState::MasterPlaylistActive(h) => HlsPlayerV::MasterPlaylistActive(h@),
            SessionState::MediaPlaylistActive(h) => HlsPlayerV::MediaPlaylistActive(h@),
        }
    }
}

impl HlsPlayer {
    /// A session that has not been started.
    pub fn new() -> (r: Self)
        ensures
            r@ == HlsPlayerV::NotStarted,
    {
        HlsPlayer { state: SessionState::NotStarted }
    }

    /// Starts the session on master playlist text the host has already
    /// fetched from `url`. Fails with `InvalidInput` on a session that
    /// was already started — leaving it untouched — and wherever the
    /// master bootstrap fails (see [`MasterPlaylistHandler::new`]).
    pub fn play_master_playlist(&mut self, url: &str, m3u8: &str) -> (r: Result<(), Error>)
        requires
            old(self)@.wf(),
        ensures
            final(self)@.wf(),
            !(old(self)@ is NotStarted) ==> {
                &&& r matches Err(e) && e@.kind == ErrorKind::InvalidInput
                &&& final(self)@ == old(self)@
            },
            old(self)@ is NotStarted ==> master_play_result(
                old(self)@,
                final(self)@,
                r,
                url@,
                m3u8.spec_bytes(),
            ),
    {
        match self.state {
            SessionState::NotStarted => {},
            _ => {
                return Err(
                    Error::new(ErrorKind::InvalidInput, "session already started".to_owned()),
                );
            },
        }
        match MasterPlaylistHandler::new(url, m3u8) {
            Ok(handler) => {
                self.state = SessionState::MasterPlaylistActive(handler);
                Ok(())
            },
            Err(e) => Err(e),
        }
    }

    /// Starts the session directly on media playlist text the host has
    /// already fetched from `url`, under a fresh stream scope. Fails with
    /// `InvalidInput` on a session that was already started — leaving it
    /// untouched — and wherever the first refresh fails (see
    /// [`MediaPlaylistHandler::with_m3u8`]).
    pub fn play_media_playlist(&mut self, url: &str, m3u8: &str) -> (r: Result<(), Error>)
        requires
            old(self)@.wf(),
        ensures
            final(self)@.wf(),
            !(old(self)@ is NotStarted) ==> {
                &&& r matches Err(e) && e@.kind == ErrorKind::InvalidInput
                &&& final(self)@ == old(self)@
            },
            old(self)@ is NotStarted ==> media_play_result(
                old(self)@,
                final(self)@,
                r,
                url@,
                m3u8.spec_bytes(),
            ),
    {
        match self.state {
            SessionState::NotStarted => {},
            _ => {
                return Err(
                    Error::new(ErrorKind::InvalidInput, "session already started".to_owned()),
                );
            },
        }
        let first_id = ActionId::default().clone_for_new_playlist();
        let action_factory = ActionFactory::new(first_id.media_playlist_id());
        match MediaPlaylistHandler::with_m3u8(action_factory, url.to_owned(), m3u8) {
            Ok(handler) => {
                self.state = SessionState::MediaPlaylistActive(handler);
                Ok(())
            },
            Err(e) => Err(e),
        }
    }

    /// Starts the session on already-fetched playlist text, dispatching
    /// on the tag that only a media playlist carries: text containing
    /// `#EXT-X-TARGETDURATION` starts a media playlist session, anything
    /// else is treated as a master playlist. Fails with `InvalidInput`
    /// on a session that was already started, leaving it untouched.
    pub fn play(&mut self, url: &str, m3u8: &str) -> (r: Result<(), Error>)
        requires
            old(self)@.wf(),
        ensures
            final(self)@.wf(),
            !(old(self)@ is NotStarted) ==> {
                &&& r matches Err(e) && e@.kind == ErrorKind::InvalidInput
                &&& final(self)@ == old(self)@
            },
            old(self)@ is NotStarted && contains_seq(m3u8@, "#EXT-X-TARGETDURATION"@)
                ==> media_play_result(old(self)@, final(self)@, r, url@, m3u8.spec_bytes()),
            old(self)@ is NotStarted && !contains_seq(m3u8@, "#EXT-X-TARGETDURATION"@)
                ==> master_play_result(old(self)@, final(self)@, r, url@, m3u8.spec_bytes()),
    {
        if contains_str(m3u8, "#EXT-X-TARGETDURATION") {
            self.play_media_playlist(url, m3u8)
        } else {
            self.play_master_playlist(url, m3u8)
        }
    }

    /// Pops and returns the active handler's next action in FIFO order;
    /// `None` before the session is started or when the queue is empty.
    pub fn next_action(&mut self) -> (r: Option<Action>)
        ensures
            match old(self)@.inner() {
                Option::None => r is None && final(self)@ == old(self)@,
                Option::Some(v) => {
                    &&& v.actions.len() == 0 ==> r is None && final(self)@ == old(self)@
                    &&& v.actions.len() > 0 ==> (r matches Some(a) && a@ == v.actions[0]
                        && final(self)@ == old(self)@.with_inner(
                        MediaPlaylistHandlerV { actions: v.actions.drop_first(), ..v },
                    ))
                },
            },
    {
        match &mut self.state {
            SessionState::NotStarted => None,
            SessionState::MasterPlaylistActive(h) => h.next_action(),
            SessionState::MediaPlaylistActive(h) => h.next_action(),
        }
    }

    /// Pops and returns the active handler's next decoded buffer in FIFO
    /// order; `None` before the session is started or when the buffer is
    /// empty.
    pub fn next_segment(&mut self) -> (r: Option<Vec<u8>>)
        ensures
            match old(self)@.inner() {
                Option::None => r is None && final(self)@ == old(self)@,
                Option::Some(v) => {
                    &&& v.output.len() == 0 ==> r is None && final(self)@ == old(self)@
                    &&& v.output.len() > 0 ==> (r matches Some(b) && b@ == v.output[0]
                        && final(self)@ == old(self)@.with_inner(
                        MediaPlaylistHandlerV { output: v.output.drop_first(), ..v },
                    ))
                },
            },
    {
        match &mut self.state {
            SessionState::NotStarted => None,
            SessionState::MasterPlaylistActive(h) => h.next_segment(),
            SessionState::MediaPlaylistActive(h) => h.next_segment(),
        }
    }

    /// Forwards one data completion to the active handler; a no-op
    /// returning `Ok` before the session is started.
    pub fn handle_data<C: SegmentConverter>(
        &mut self,
        action_id: ActionId,
        data: &[u8],
        converter: &mut C,
    ) -> (r: Result<(), Error>)
        requires
            old(self)@.wf(),
        ensures
            final(self)@.wf(),
            match old(self)@.inner() {
                Option::None => r is Ok && final(self)@ == old(self)@,
                Option::Some(v) => if action_id@ == v.fetch_playlist_action_id {
                    &&& (r is Ok <==> playlist_data_accepted(v, data@))
                    &&& final(self)@ == old(self)@.with_inner(
                        playlist_data_applied(v, data@),
                    )
                    &&& (r matches Err(e) ==> e@.kind == ErrorKind::InvalidInput)
                } else {
                    &&& (r is Ok ==> exists|init: Seq<u8>, media: Seq<u8>|
                        final(self)@ == old(self)@.with_inner(
                            #[trigger] completed(v, init, media),
                        ))
                    &&& (r is Err ==> final(self)@ == old(self)@)
                },
            },
    {
        match &mut self.state {
            SessionState::NotStarted => Ok(()),
            SessionState::MasterPlaylistActive(h) => h.handle_data(action_id, data, converter),
            SessionState::MediaPlaylistActive(h) => h.handle_data(action_id, data, converter),
        }
    }

    /// Forwards one timeout completion to the active handler; a no-op
    /// returning `Ok` before the session is started.
    pub fn handle_timeout(&mut self, action_id: ActionId) -> (r: Result<(), Error>)
        requires
            old(self)@.wf(),
        ensures
            final(self)@.wf(),
            r is Ok,
            match old(self)@.inner() {
                Option::None => final(self)@ == old(self)@,
                Option::Some(v) => final(self)@ == old(self)@.with_inner(timed_out(v)),
            },
    {
        match &mut self.state {
            SessionState::NotStarted => Ok(()),
            SessionState::MasterPlaylistActive(h) => h.handle_timeout(action_id),
            SessionState::MediaPlaylistActive(h) => h.handle_timeout(action_id),
        }
    }
}

} // verus!
