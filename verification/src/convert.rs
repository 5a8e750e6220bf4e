//! The delegated transport-stream converter, injected as a substitutable
//! collaborator.
//!
//! Turning one fetched MPEG-TS segment into a fragmented-MP4
//! initialization chunk and media chunk is media-format work the engine
//! delegates to its embedding: the handler takes the converter as an
//! argument and books whatever it returns. Nothing is assumed of the
//! conversion itself — the engine's contracts state, for every value the
//! converter can hand back, exactly how the result is booked (see
//! [`crate::media_playlist_handler::completed`]) — and a test can
//! substitute a fake.

use vstd::prelude::*;

use crate::error::Error;

verus! {

/// Converts one transport-stream payload into the pair of a serialized
/// initialization chunk and a serialized media chunk, or reports why the
/// payload cannot be converted.
pub trait SegmentConverter {
    /// Converts `ts_segment`; the two buffers are the initialization
    /// chunk's bytes and the media chunk's bytes, in that order.
    fn convert(&mut self, ts_segment: &[u8]) -> Result<(Vec<u8>, Vec<u8>), Error>;
}

} // verus!
