//! Lifetime laws of the media playlist handler.
//!
//! Every public operation of [`crate::media_playlist_handler`] pins its
//! result to one of the spec-level transition functions ([`refreshed`],
//! [`completed`], [`timed_out`], or a queue pop). This module packages
//! those transitions as a step relation over whole event sequences and
//! proves the properties that hold across a handler's lifetime: the
//! pipeline-depth and sequencing invariants are preserved by every step,
//! the dedup watermark never moves backwards, no refresh re-enqueues a
//! sequence number at or below it, a refresh leaves no entry behind that
//! the live window has slid past, and the initialization chunk is emitted
//! at most once over any run.

use vstd::prelude::*;

use crate::media_playlist_handler::{
    MediaPlaylistHandlerV, PendingSegmentV, completed, evicted, first_new_index, new_entries,
    playlist_data_accepted, playlist_data_applied, refresh_fits, refreshed, timed_out,
};
use crate::playlist::parsed_media_playlist;

verus! {

/// One interaction with a handler, as the host delivers or drains it. A
/// data completion whose identifier matches the outstanding playlist
/// fetch is a `PlaylistData` event carrying the text; any other data
/// completion is a `SegmentData` event carrying what the injected
/// converter made of the payload (`None` when it rejected it). The
/// remaining events are a timeout completion and the two queue drains.
pub enum HandlerEvent {
    PlaylistData { data: Seq<u8> },
    SegmentData { converted: Option<(Seq<u8>, Seq<u8>)> },
    Timeout,
    PopAction,
    PopOutput,
}

/// The handler state after one event — exactly what the corresponding
/// public operation ensures: the playlist branch of `handle_data` ends
/// in `playlist_data_applied(v, data)`, its segment branch in
/// `completed(v, init, media)` for whatever chunks the converter
/// returned (and in `v` when it rejected the payload), `handle_timeout`
/// in `timed_out(v)`, and `next_action`/`next_segment` pop the front of
/// their queue when it is nonempty and change nothing when it is empty.
pub open spec fn step(v: MediaPlaylistHandlerV, e: HandlerEvent) -> MediaPlaylistHandlerV {
    match e {
        HandlerEvent::PlaylistData { data } => playlist_data_applied(v, data),
        HandlerEvent::SegmentData { converted } => match converted {
            Option::None => v,
            Option::Some(chunks) => completed(v, chunks.0, chunks.1),
        },
        HandlerEvent::Timeout => timed_out(v),
        HandlerEvent::PopAction => if v.actions.len() == 0 {
            v
        } else {
            MediaPlaylistHandlerV { actions: v.actions.drop_first(), ..v }
        },
        HandlerEvent::PopOutput => if v.output.len() == 0 {
            v
        } else {
            MediaPlaylistHandlerV { output: v.output.drop_first(), ..v }
        },
    }
}

/// The handler state after a whole sequence of events.
pub open spec fn run(v: MediaPlaylistHandlerV, es: Seq<HandlerEvent>) -> MediaPlaylistHandlerV
    decreases es.len(),
{
    if es.len() == 0 {
        v
    } else {
        run(step(v, es[0]), es.drop_first())
    }
}

/// The index of the first queue entry at or above the window start —
/// the entries before it are exactly those eviction drops.
spec fn first_at_or_above(segs: Seq<PendingSegmentV>, ms: u64) -> int
    decreases segs.len(),
{
    if segs.len() == 0 {
        0int
    } else if segs[0].sequence_number >= ms {
        0int
    } else {
        1 + first_at_or_above(segs.drop_first(), ms)
    }
}

/// On a sorted queue, [`first_at_or_above`] splits it into a strict
/// prefix below the window start and a suffix at or above it, and
/// eviction is exactly dropping that prefix.
proof fn lemma_eviction_split(segs: Seq<PendingSegmentV>, ms: u64)
    requires
        forall|a: int, b: int|
            0 <= a < b < segs.len() ==> segs[a].sequence_number < segs[b].sequence_number,
    ensures
        0 <= first_at_or_above(segs, ms) <= segs.len(),
        forall|k: int| 0 <= k < first_at_or_above(segs, ms) ==> segs[k].sequence_number < ms,
        first_at_or_above(segs, ms) < segs.len() ==> segs[first_at_or_above(
            segs,
            ms,
        )].sequence_number >= ms,
        evicted(segs, ms) == segs.skip(first_at_or_above(segs, ms)),
    decreases segs.len(),
{
    let j = first_at_or_above(segs, ms);
    if segs.len() == 0 {
    } else if segs[0].sequence_number >= ms {
        assert forall|k: int| 0 <= k < segs.len() implies segs[k].sequence_number >= ms by {
            if k > 0 {
                assert(segs[0].sequence_number < segs[k].sequence_number);
            }
        }
    } else {
        let rest = segs.drop_first();
        lemma_eviction_split(rest, ms);
        assert forall|k: int| 0 <= k < j implies segs[k].sequence_number < ms by {
            if k > 0 {
                assert(rest[k - 1].sequence_number < ms);
            }
        }
        if j < segs.len() {
            assert(segs[j] == rest[j - 1]);
        }
    }
    crate::media_playlist_handler::lemma_evicted_is_suffix(segs, ms, j);
}

/// **Pipeline-depth and sequencing invariant, per step.** Every event
/// preserves the handler's well-formedness: the segment queue stays
/// strictly sorted, holds at most one in-flight entry — only at the
/// front, so at most one segment fetch is ever outstanding — and never
/// holds a sequence number above the dedup watermark.
pub proof fn lemma_step_preserves_wf(v: MediaPlaylistHandlerV, e: HandlerEvent)
    requires
        v.wf(),
    ensures
        step(v, e).wf(),
{
    match e {
        HandlerEvent::PlaylistData { data } => {
            if playlist_data_accepted(v, data) {
                let d = parsed_media_playlist(data)->Some_0;
                lemma_eviction_split(v.segments, d.media_sequence);
                crate::media_playlist_handler::lemma_refreshed_wf(
                    v,
                    d,
                    first_at_or_above(v.segments, d.media_sequence),
                );
            }
        },
        HandlerEvent::SegmentData { converted } => {
            if let Option::Some(chunks) = converted {
                lemma_completed_wf(v, chunks.0, chunks.1);
            }
        },
        HandlerEvent::Timeout => {},
        HandlerEvent::PopAction => {},
        HandlerEvent::PopOutput => {},
    }
}

/// A segment completion preserves well-formedness: consuming the
/// in-flight front and marking the next waiting entry keeps the queue
/// sorted, keeps the in-flight mark unique and at the front, and moves
/// no entry above the watermark.
proof fn lemma_completed_wf(v: MediaPlaylistHandlerV, init: Seq<u8>, media: Seq<u8>)
    requires
        v.wf(),
    ensures
        completed(v, init, media).wf(),
{
    let rest = if v.segments.len() > 0 && v.segments[0].in_flight {
        v.segments.drop_first()
    } else {
        v.segments
    };
    let segs = completed(v, init, media).segments;
    assert(forall|i: int|
        0 <= i < rest.len() ==> rest[i] == v.segments[i + (v.segments.len() - rest.len())]);
    assert forall|a: int, b: int|
        0 <= a < b < segs.len() implies segs[a].sequence_number < segs[b].sequence_number by {
        let off = v.segments.len() - rest.len();
        assert(segs[a].sequence_number == v.segments[a + off].sequence_number);
        assert(segs[b].sequence_number == v.segments[b + off].sequence_number);
    }
    assert forall|i: int|
        0 <= i < segs.len() && #[trigger] segs[i].in_flight implies i == 0 by {
        let off = v.segments.len() - rest.len();
        if !(rest.len() > 0 && !rest[0].in_flight) {
            assert(segs[i] == v.segments[i + off]);
        } else if i > 0 {
            assert(segs[i] == rest[i]);
            assert(rest[i] == v.segments[i + off]);
        }
    }
    assert forall|i: int|
        0 <= i < segs.len() implies #[trigger] segs[i].sequence_number
        <= completed(v, init, media).last_media_sequence by {
        let off = v.segments.len() - rest.len();
        assert(segs[i].sequence_number == v.segments[i + off].sequence_number);
    }
}

/// **Monotonic watermark, per step.** No event moves the dedup watermark
/// backwards, and the one-time initialization flag never resets.
pub proof fn lemma_step_monotone(v: MediaPlaylistHandlerV, e: HandlerEvent)
    requires
        v.wf(),
    ensures
        step(v, e).last_media_sequence >= v.last_media_sequence,
        v.is_initialized ==> step(v, e).is_initialized,
{
}

/// **Monotonic sequencing, per refresh.** A refresh enqueues only
/// sequence numbers strictly above the old watermark: every entry of the
/// refreshed queue either already sat in the old queue or is new and
/// fresh. Together with the monotone watermark this is the guarantee
/// that no sequence number at or below `last_media_sequence` is ever
/// re-enqueued.
pub proof fn lemma_refresh_fresh(v: MediaPlaylistHandlerV, d: crate::playlist::MediaPlaylistDescV)
    requires
        v.wf(),
        refresh_fits(d),
    ensures
        refreshed(v, d).last_media_sequence >= v.last_media_sequence,
        forall|i: int|
            0 <= i < refreshed(v, d).segments.len()
                ==> (#[trigger] refreshed(v, d).segments[i].sequence_number
                > v.last_media_sequence || exists|k: int|
                0 <= k < v.segments.len() && refreshed(v, d).segments[i]
                    == v.segments[k]),
{
    let segs = refreshed(v, d).segments;
    let lo = first_new_index(d, v.last_media_sequence);
    let keep = evicted(v.segments, d.media_sequence);
    lemma_eviction_split(v.segments, d.media_sequence);
    let j = first_at_or_above(v.segments, d.media_sequence);
    assert forall|i: int|
        0 <= i < segs.len() implies (#[trigger] segs[i].sequence_number
        > v.last_media_sequence || exists|k: int|
        0 <= k < v.segments.len() && segs[i] == v.segments[k]) by {
        if i < keep.len() {
            assert(segs[i] == v.segments[j + i]);
        } else {
            assert(segs[i] == new_entries(v, d, lo, keep.len() == 0)[i - keep.len()]);
            assert(segs[i].sequence_number == d.media_sequence + lo + (i - keep.len()));
            assert(v.last_media_sequence < d.media_sequence + lo);
        }
    }
}

/// **Sliding-window eviction.** After a refresh whose starting sequence
/// number is `media_sequence`, no entry below it remains in the queue.
pub proof fn lemma_refresh_evicts(v: MediaPlaylistHandlerV, d: crate::playlist::MediaPlaylistDescV)
    requires
        v.wf(),
        refresh_fits(d),
    ensures
        forall|i: int|
            0 <= i < refreshed(v, d).segments.len()
                ==> #[trigger] refreshed(v, d).segments[i].sequence_number >= d.media_sequence,
{
    let segs = refreshed(v, d).segments;
    let lo = first_new_index(d, v.last_media_sequence);
    let keep = evicted(v.segments, d.media_sequence);
    lemma_eviction_split(v.segments, d.media_sequence);
    let j = first_at_or_above(v.segments, d.media_sequence);
    assert forall|i: int|
        0 <= i < segs.len() implies #[trigger] segs[i].sequence_number >= d.media_sequence by {
        if i < keep.len() {
            assert(keep[i] == v.segments[j + i]);
            assert(j + i >= j);
            if j + i > j {
                assert(v.segments[j].sequence_number < v.segments[j + i].sequence_number);
            }
        } else {
            assert(segs[i] == new_entries(v, d, lo, keep.len() == 0)[i - keep.len()]);
        }
    }
}

/// **A whole run keeps the invariant and never rolls back.** Over any
/// event sequence, the handler stays well-formed, the watermark is
/// non-decreasing, and the initialization flag never resets.
pub proof fn lemma_run_monotone(v: MediaPlaylistHandlerV, es: Seq<HandlerEvent>)
    requires
        v.wf(),
    ensures
        run(v, es).wf(),
        run(v, es).last_media_sequence >= v.last_media_sequence,
        v.is_initialized ==> run(v, es).is_initialized,
    decreases es.len(),
{
    if es.len() > 0 {
        lemma_step_preserves_wf(v, es[0]);
        lemma_step_monotone(v, es[0]);
        lemma_run_monotone(step(v, es[0]), es.drop_first());
    }
}

/// How many initialization chunks a run emits: one at each converted
/// segment completion that finds the handler uninitialized, none
/// anywhere else. (At that completion, [`completed`] appends the
/// initialization chunk before the media chunk — it is always the first
/// element appended after the flag flips.)
pub open spec fn inits_emitted(v: MediaPlaylistHandlerV, es: Seq<HandlerEvent>) -> int
    decreases es.len(),
{
    if es.len() == 0 {
        0int
    } else {
        let now: int = match es[0] {
            HandlerEvent::SegmentData { converted } => if !v.is_initialized
                && converted is Some {
                1int
            } else {
                0int
            },
            _ => 0int,
        };
        now + inits_emitted(step(v, es[0]), es.drop_first())
    }
}

/// **Single init-chunk law.** Across any run of a handler's lifetime the
/// initialization chunk is emitted at most once — exactly once if and
/// only if the run ends initialized having started uninitialized.
pub proof fn lemma_single_init(v: MediaPlaylistHandlerV, es: Seq<HandlerEvent>)
    requires
        v.wf(),
    ensures
        inits_emitted(v, es) == (if run(v, es).is_initialized {
            1int
        } else {
            0int
        }) - (if v.is_initialized {
            1int
        } else {
            0int
        }),
        inits_emitted(v, es) <= 1,
    decreases es.len(),
{
    if es.len() > 0 {
        lemma_step_preserves_wf(v, es[0]);
        lemma_single_init(step(v, es[0]), es.drop_first());
    }
}

} // verus!
