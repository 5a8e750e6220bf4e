//! The delegated playlist parser, specified only at its interface.
//!
//! Playlist text parsing is not this engine's concern: the engine consumes
//! the parse result as plain data — a starting sequence number, a target
//! polling duration, and an ordered list of segment URIs with durations.
//! What a given text parses to is named by the uninterpreted functions
//! [`parsed_media_playlist`] and [`parsed_master_playlist`]; everything the
//! engine does with the result is verified for every value of it.

use vstd::prelude::*;

use crate::error::{Error, ErrorKind};
use crate::guard::playlist_text_safe;

verus! {

/// The mathematical value of a [`SegmentDesc`].
pub struct SegmentDescV {
    pub uri: Seq<char>,
    pub duration_ms: u64,
}

/// One media segment as a media playlist lists it: its (possibly relative)
/// URI and its duration in milliseconds.
#[derive(Clone, Debug)]
pub struct SegmentDesc {
    pub uri: String,
    pub duration_ms: u64,
}

impl View for SegmentDesc {
    type V = SegmentDescV;

    open spec fn view(&self) -> SegmentDescV {
        SegmentDescV { uri: self.uri@, duration_ms: self.duration_ms }
    }
}

/// The mathematical value of a [`MediaPlaylistDesc`].
pub struct MediaPlaylistDescV {
    pub media_sequence: u64,
    pub target_duration_ms: u64,
    pub segments: Seq<SegmentDescV>,
}

/// Everything the engine reads out of one media playlist snapshot: the
/// absolute sequence number of the first listed segment (`0` when the tag
/// is absent), the target polling duration in milliseconds, and the listed
/// segments in order.
#[derive(Clone, Debug)]
pub struct MediaPlaylistDesc {
    pub media_sequence: u64,
    pub target_duration_ms: u64,
    pub segments: Vec<SegmentDesc>,
}

impl View for MediaPlaylistDesc {
    type V = MediaPlaylistDescV;

    open spec fn view(&self) -> MediaPlaylistDescV {
        MediaPlaylistDescV {
            media_sequence: self.media_sequence,
            target_duration_ms: self.target_duration_ms,
            segments: Seq::new(self.segments@.len(), |i: int| self.segments@[i]@),
        }
    }
}

/// Everything the engine reads out of one master playlist: the (possibly
/// relative) URIs of its variant streams, in the order listed.
#[derive(Clone, Debug)]
pub struct MasterPlaylistDesc {
    pub variant_stream_uris: Vec<String>,
}

impl View for MasterPlaylistDesc {
    type V = Seq<Seq<char>>;

    open spec fn view(&self) -> Seq<Seq<char>> {
        Seq::new(
            self.variant_stream_uris@.len(),
            |i: int| self.variant_stream_uris@[i]@,
        )
    }
}

/// What the delegated parser makes of `text` as a media playlist: `None`
/// when the text is rejected (malformed UTF-8 or malformed playlist),
/// otherwise the extracted data. The result depends on the text alone.
pub uninterp spec fn parsed_media_playlist(text: Seq<u8>) -> Option<MediaPlaylistDescV>;

/// What the delegated parser makes of `text` as a master playlist: `None`
/// when the text is rejected, otherwise the variant-stream URIs in order.
/// The result depends on the text alone.
pub uninterp spec fn parsed_master_playlist(text: Seq<u8>) -> Option<Seq<Seq<char>>>;

/// Relies on `hls_m3u8::MediaPlaylist::try_from` (and `str::from_utf8`):
/// parses media playlist text into its target duration, its starting media
/// sequence number (`0` when absent) and its segment list, failing exactly
/// on input it rejects. The parse result is a function of the text alone.
/// Relied upon only inside the guarded domain [`playlist_text_safe`],
/// which keeps every number the parser reads within the ranges its
/// arithmetic supports.
#[verifier::external_body]
pub(crate) fn parse_media_playlist(text: &[u8]) -> (r: Result<MediaPlaylistDesc, Error>)
    requires
        playlist_text_safe(text@),
    ensures
        r is Ok <==> parsed_media_playlist(text@) is Some,
        r matches Ok(d) ==> Some(d@) == parsed_media_playlist(text@),
        r matches Err(e) ==> e@.kind == ErrorKind::InvalidInput && e@.trace.len() == 0,
{
    let s = match std::str::from_utf8(text) {
        Ok(s) => s,
        Err(e) => return Err(Error::new(ErrorKind::InvalidInput, e.to_string())),
    };
    let p = match hls_m3u8::MediaPlaylist::try_from(s) {
        Ok(p) => p,
        Err(e) => return Err(Error::new(ErrorKind::InvalidInput, e.to_string())),
    };
    let mut segments = Vec::new();
    for seg in p.segments.values() {
        let (uri, duration_ms) = (seg.uri().to_string(), seg.duration.duration().as_millis() as u64);
        segments.push(SegmentDesc { uri, duration_ms });
    }
    let (media_sequence, target_duration_ms) = (p.media_sequence as u64, p.target_duration.as_millis() as u64);
    Ok(MediaPlaylistDesc { media_sequence, target_duration_ms, segments })
}

/// Relies on `hls_m3u8::MasterPlaylist::try_from` (and `str::from_utf8`):
/// parses master playlist text into the ordered URIs of its
/// `EXT-X-STREAM-INF` variant streams, failing exactly on input it
/// rejects. The parse result is a function of the text alone.
/// Relied upon only inside the guarded domain [`playlist_text_safe`],
/// which keeps every number the parser reads within the ranges its
/// arithmetic supports.
#[verifier::external_body]
pub(crate) fn parse_master_playlist(text: &[u8]) -> (r: Result<MasterPlaylistDesc, Error>)
    requires
        playlist_text_safe(text@),
    ensures
        r is Ok <==> parsed_master_playlist(text@) is Some,
        r matches Ok(d) ==> Some(d@) == parsed_master_playlist(text@),
        r matches Err(e) ==> e@.kind == ErrorKind::InvalidInput && e@.trace.len() == 0,
{
    let s = match std::str::from_utf8(text) {
        Ok(s) => s,
        Err(e) => return Err(Error::new(ErrorKind::InvalidInput, e.to_string())),
    };
    let p = match hls_m3u8::MasterPlaylist::try_from(s) {
        Ok(p) => p,
        Err(e) => return Err(Error::new(ErrorKind::InvalidInput, e.to_string())),
    };
    let mut variant_stream_uris = Vec::new();
    for v in &p.variant_streams {
        if let hls_m3u8::tags::VariantStream::ExtXStreamInf { uri, .. } = v {
            variant_stream_uris.push(uri.to_string());
        }
    }
    Ok(MasterPlaylistDesc { variant_stream_uris })
}

} // verus!
