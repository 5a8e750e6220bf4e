//! The core engine: one live media playlist's polling cadence, segment
//! queue, single-segment-in-flight fetch discipline, and decoded-output
//! buffer.
//!
//! The handler never blocks and performs no I/O: it appends requests to an
//! action queue the host drains, and the host reports each completion back
//! through [`MediaPlaylistHandler::handle_data`] or
//! [`MediaPlaylistHandler::handle_timeout`]. Every public operation's
//! contract pins the handler's new state, phrased over the mathematical
//! view [`MediaPlaylistHandlerV`] and the spec-level transition functions
//! [`refreshed`], [`completed`] and [`timed_out`]; lifetime laws over whole
//! event sequences are stated and proved in [`crate::laws`].

use vstd::prelude::*;

use std::collections::VecDeque;

use crate::action::{Action, ActionFactory, ActionId, ActionV, id_advanced};
use crate::convert::SegmentConverter;
use crate::error::{Error, ErrorKind};
use crate::guard::{playlist_text_guarded, playlist_text_safe};
use crate::playlist::{MediaPlaylistDesc, MediaPlaylistDescV, parse_media_playlist, parsed_media_playlist};
use crate::resolve::{resolve_url, resolved_url};
use vstd::string::StringSliceAdditionalSpecFns;

verus! {

/// The mathematical value of a [`PendingSegment`].
pub struct PendingSegmentV {
    pub sequence_number: u64,
    pub in_flight: bool,
    pub url: Seq<char>,
}

/// One media segment known from the playlist but not yet delivered as
/// decoded output: its absolute sequence number, whether its fetch has
/// been requested from the host, and its resolved URL.
#[derive(Clone, Debug)]
pub struct PendingSegment {
    pub sequence_number: u64,
    pub in_flight: bool,
    pub url: String,
}

impl View for PendingSegment {
    type V = PendingSegmentV;

    open spec fn view(&self) -> PendingSegmentV {
        PendingSegmentV {
            sequence_number: self.sequence_number,
            in_flight: self.in_flight,
            url: self.url@,
        }
    }
}

/// The mathematical value of a [`MediaPlaylistHandler`]: its base URL, the
/// next identifier its factory will allocate, the queued actions, the
/// pending segments, the decoded output buffers, the dedup watermark, the
/// one-time initialization flag, and the identifier of the outstanding
/// playlist fetch.
pub struct MediaPlaylistHandlerV {
    pub url: Seq<char>,
    pub next_action_id: u64,
    pub actions: Seq<ActionV>,
    pub segments: Seq<PendingSegmentV>,
    pub output: Seq<Seq<u8>>,
    pub last_media_sequence: u64,
    pub is_initialized: bool,
    pub fetch_playlist_action_id: u64,
}

/// The segment queue's own discipline: strictly increasing sequence
/// numbers (a strict FIFO over a sliding window), and at most one entry
/// marked in-flight — the front one. The front-only in-flight mark is the
/// pipeline-depth invariant: the handler never has more than one segment
/// fetch outstanding.
pub open spec fn segments_wf(segs: Seq<PendingSegmentV>) -> bool {
    &&& forall|i: int, j: int|
        0 <= i < j < segs.len() ==> segs[i].sequence_number < segs[j].sequence_number
    &&& forall|i: int| 0 <= i < segs.len() ==> (#[trigger] segs[i].in_flight ==> i == 0)
}

impl MediaPlaylistHandlerV {
    /// Well-formedness: the segment queue obeys its discipline and never
    /// holds a sequence number above the dedup watermark.
    pub open spec fn wf(self) -> bool {
        &&& segments_wf(self.segments)
        &&& forall|i: int|
            0 <= i < self.segments.len()
                ==> #[trigger] self.segments[i].sequence_number <= self.last_media_sequence
    }
}

/// The segment queue after a refresh whose starting sequence number is
/// `media_sequence`: every entry the live window has slid past is dropped.
pub open spec fn evicted(
    segs: Seq<PendingSegmentV>,
    media_sequence: u64,
) -> Seq<PendingSegmentV> {
    segs.filter(|s: PendingSegmentV| s.sequence_number >= media_sequence)
}

/// The index of the first listed segment that is new to this handler:
/// the first whose absolute sequence number exceeds the watermark `last`.
/// May lie at or beyond the end of the list when nothing is new.
pub open spec fn first_new_index(d: MediaPlaylistDescV, last: u64) -> int {
    if d.media_sequence > last {
        0int
    } else {
        last - d.media_sequence + 1
    }
}

/// A refresh fits the engine's arithmetic when the listed segments'
/// absolute sequence numbers stay representable.
pub open spec fn refresh_fits(d: MediaPlaylistDescV) -> bool {
    d.media_sequence + d.segments.len() <= u64::MAX + 1
}

/// A refresh succeeds exactly when every new segment's URI resolves
/// against the handler's base URL.
pub open spec fn refresh_resolves(v: MediaPlaylistHandlerV, d: MediaPlaylistDescV) -> bool {
    forall|i: int|
        first_new_index(d, v.last_media_sequence) <= i < d.segments.len()
            ==> #[trigger] resolved_url(v.url, d.segments[i].uri) is Some
}

/// The polling interval after the new segments of the list's suffix
/// `[lo, i)` have tightened the target duration: the minimum of `target`
/// and their durations.
pub open spec fn interval_upto(target: u64, d: MediaPlaylistDescV, lo: int, i: int) -> u64
    decreases i - lo,
{
    if i <= lo {
        target
    } else {
        let prev = interval_upto(target, d, lo, i - 1);
        if d.segments[i - 1].duration_ms < prev {
            d.segments[i - 1].duration_ms
        } else {
            prev
        }
    }
}

/// The queue entries a refresh appends: one per new segment, in listed
/// order. Only the first may start in flight, and only when the queue was
/// empty after eviction — the only path that starts the segment pipeline.
pub open spec fn new_entries(
    v: MediaPlaylistHandlerV,
    d: MediaPlaylistDescV,
    lo: int,
    empty_after_evict: bool,
) -> Seq<PendingSegmentV> {
    let cnt = if lo <= d.segments.len() {
        (d.segments.len() - lo) as nat
    } else {
        0nat
    };
    Seq::new(
        cnt,
        |k: int| PendingSegmentV {
            sequence_number: (d.media_sequence + lo + k) as u64,
            in_flight: empty_after_evict && k == 0,
            url: resolved_url(v.url, d.segments[lo + k].uri)->Some_0,
        },
    )
}

/// The handler state after a successful playlist refresh (`d` parsed from
/// fresh playlist text): stale entries evicted, each new segment appended
/// (the first one fetched immediately if the pipeline was idle), the
/// watermark advanced, and one `SetTimeout` re-arming the poll at the
/// target duration tightened by every new segment's duration.
pub open spec fn refreshed(
    v: MediaPlaylistHandlerV,
    d: MediaPlaylistDescV,
) -> MediaPlaylistHandlerV {
    let lo = first_new_index(d, v.last_media_sequence);
    let keep = evicted(v.segments, d.media_sequence);
    let has_new = lo < d.segments.len();
    let fetch_issued = has_new && keep.len() == 0;
    let interval = interval_upto(d.target_duration_ms, d, lo, d.segments.len() as int);
    let id_after_fetch = if fetch_issued {
        id_advanced(v.next_action_id)
    } else {
        v.next_action_id
    };
    let fetch_actions = if fetch_issued {
        seq![
            ActionV::FetchData {
                action_id: v.next_action_id,
                url: resolved_url(v.url, d.segments[lo].uri)->Some_0,
            },
        ]
    } else {
        Seq::<ActionV>::empty()
    };
    MediaPlaylistHandlerV {
        url: v.url,
        next_action_id: id_advanced(id_after_fetch),
        actions: v.actions + fetch_actions + seq![
            ActionV::SetTimeout { action_id: id_after_fetch, duration_ms: interval },
        ],
        segments: keep + new_entries(v, d, lo, keep.len() == 0),
        output: v.output,
        last_media_sequence: if has_new {
            (d.media_sequence + d.segments.len() - 1) as u64
        } else {
            v.last_media_sequence
        },
        is_initialized: v.is_initialized,
        fetch_playlist_action_id: v.fetch_playlist_action_id,
    }
}

/// The handler state after one fetched segment's payload has been
/// converted into `init` and `media` chunks: the completed front entry
/// leaves the queue (unless the completion was spurious and the front was
/// not in flight), the next waiting entry's fetch is requested, and the
/// chunks are appended to the output buffer — the initialization chunk
/// only the first time, ever, and always before that first media chunk.
pub open spec fn completed(
    v: MediaPlaylistHandlerV,
    init: Seq<u8>,
    media: Seq<u8>,
) -> MediaPlaylistHandlerV {
    let rest = if v.segments.len() > 0 && v.segments[0].in_flight {
        v.segments.drop_first()
    } else {
        v.segments
    };
    let fetch_next = rest.len() > 0 && !rest[0].in_flight;
    MediaPlaylistHandlerV {
        url: v.url,
        next_action_id: if fetch_next {
            id_advanced(v.next_action_id)
        } else {
            v.next_action_id
        },
        actions: if fetch_next {
            v.actions.push(
                ActionV::FetchData { action_id: v.next_action_id, url: rest[0].url },
            )
        } else {
            v.actions
        },
        segments: if fetch_next {
            rest.update(0, PendingSegmentV { in_flight: true, ..rest[0] })
        } else {
            rest
        },
        output: if v.is_initialized {
            v.output.push(media)
        } else {
            v.output.push(init).push(media)
        },
        last_media_sequence: v.last_media_sequence,
        is_initialized: true,
        fetch_playlist_action_id: v.fetch_playlist_action_id,
    }
}

/// The handler state after any timeout completion: a fresh playlist fetch
/// is enqueued unconditionally and recorded as the outstanding one. The
/// delivered identifier is deliberately not validated against the last
/// armed timeout: a duplicate or late timeout triggers one extra refresh.
pub open spec fn timed_out(v: MediaPlaylistHandlerV) -> MediaPlaylistHandlerV {
    MediaPlaylistHandlerV {
        next_action_id: id_advanced(v.next_action_id),
        actions: v.actions.push(
            ActionV::FetchData { action_id: v.next_action_id, url: v.url },
        ),
        fetch_playlist_action_id: v.next_action_id,
        ..v
    }
}

/// Whether a completion of the outstanding playlist fetch carrying
/// `data` is accepted by the handler in state `v`: the text must lie in
/// the guarded domain, parse, fit the representable sequence range, and
/// have every new URI resolve.
pub open spec fn playlist_data_accepted(v: MediaPlaylistHandlerV, data: Seq<u8>) -> bool {
    &&& playlist_text_safe(data)
    &&& match parsed_media_playlist(data) {
        Option::None => false,
        Option::Some(d) => refresh_fits(d) && refresh_resolves(v, d),
    }
}

/// The handler state after a completion of the outstanding playlist
/// fetch carrying `data`: the refresh where the text is accepted, the
/// state unchanged where it is not — exactly the failure semantics of
/// `handle_data`.
pub open spec fn playlist_data_applied(
    v: MediaPlaylistHandlerV,
    data: Seq<u8>,
) -> MediaPlaylistHandlerV {
    if playlist_data_accepted(v, data) {
        refreshed(v, parsed_media_playlist(data)->Some_0)
    } else {
        v
    }
}

/// The state a fresh handler starts in: empty queues, a zero watermark,
/// and the bootstrap playlist fetch already enqueued and recorded.
pub open spec fn initial_state(factory: u64, url: Seq<char>) -> MediaPlaylistHandlerV {
    MediaPlaylistHandlerV {
        url: url,
        next_action_id: id_advanced(factory),
        actions: seq![ActionV::FetchData { action_id: factory, url: url }],
        segments: Seq::<PendingSegmentV>::empty(),
        output: Seq::<Seq<u8>>::empty(),
        last_media_sequence: 0,
        is_initialized: false,
        fetch_playlist_action_id: factory,
    }
}

/// On a queue whose first `j` entries (and only those) lie below the
/// window's start, eviction is exactly dropping that prefix.
pub(crate) proof fn lemma_evicted_is_suffix(segs: Seq<PendingSegmentV>, ms: u64, j: int)
    requires
        forall|a: int, b: int|
            0 <= a < b < segs.len() ==> segs[a].sequence_number < segs[b].sequence_number,
        0 <= j <= segs.len(),
        forall|k: int| 0 <= k < j ==> segs[k].sequence_number < ms,
        j < segs.len() ==> segs[j].sequence_number >= ms,
    ensures
        evicted(segs, ms) == segs.skip(j),
    decreases segs.len(),
{
    reveal(Seq::filter);
    if segs.len() == 0 {
        assert(evicted(segs, ms) =~= segs.skip(j));
    } else {
        let last = segs.last();
        let front = segs.drop_last();
        if j == segs.len() {
            lemma_evicted_is_suffix(front, ms, j - 1);
            assert(evicted(segs, ms) =~= segs.skip(j));
        } else {
            assert(last.sequence_number >= ms);
            lemma_evicted_is_suffix(front, ms, j);
            assert(evicted(segs, ms) == front.skip(j).push(last));
            assert(evicted(segs, ms) =~= segs.skip(j));
        }
    }
}

/// A refresh preserves the handler's well-formedness: the refreshed queue
/// is still sorted, still holds at most one in-flight entry (at the
/// front), and still sits at or below the new watermark.
pub(crate) proof fn lemma_refreshed_wf(v: MediaPlaylistHandlerV, d: MediaPlaylistDescV, j: int)
    requires
        v.wf(),
        refresh_fits(d),
        0 <= j <= v.segments.len(),
        evicted(v.segments, d.media_sequence) == v.segments.skip(j),
    ensures
        refreshed(v, d).wf(),
{
    let ms = d.media_sequence;
    let n = d.segments.len() as int;
    let lo = first_new_index(d, v.last_media_sequence);
    let keep = v.segments.skip(j);
    let news = new_entries(v, d, lo, keep.len() == 0);
    let segs = refreshed(v, d).segments;
    let last2 = refreshed(v, d).last_media_sequence;
    assert(segs == keep + news);
    assert(v.last_media_sequence < ms + lo);
    assert(forall|k: int|
        0 <= k < keep.len() ==> #[trigger] keep[k] == v.segments[j + k]);
    assert forall|a: int, b: int|
        0 <= a < b < segs.len() implies segs[a].sequence_number
        < segs[b].sequence_number by {
        if b < keep.len() {
            assert(v.segments[j + a].sequence_number < v.segments[j + b].sequence_number);
        } else if a >= keep.len() {
            assert(segs[a] == news[a - keep.len()]);
            assert(segs[b] == news[b - keep.len()]);
        } else {
            assert(segs[a].sequence_number <= v.last_media_sequence);
            assert(segs[b] == news[b - keep.len()]);
            assert(segs[b].sequence_number == ms + lo + (b - keep.len()));
        }
    }
    assert forall|i: int|
        0 <= i < segs.len() && #[trigger] segs[i].in_flight implies i == 0 by {
        if i < keep.len() {
            assert(keep[i] == v.segments[j + i]);
            assert(j + i == 0);
        } else {
            assert(segs[i] == news[i - keep.len()]);
        }
    }
    assert forall|i: int|
        0 <= i < segs.len() implies #[trigger] segs[i].sequence_number <= last2 by {
        if lo < n {
            if i < keep.len() {
                assert(keep[i] == v.segments[j + i]);
                assert(segs[i].sequence_number <= v.last_media_sequence);
            } else {
                assert(segs[i] == news[i - keep.len()]);
                assert(segs[i].sequence_number == ms + lo + (i - keep.len()));
            }
        } else {
            assert(news.len() == 0);
            assert(keep[i] == v.segments[j + i]);
        }
    }
}

/// The handler state in the middle of a refresh, after eviction and after
/// the first `i` listed segments have been examined (those at `lo` and
/// beyond appended).
spec fn refresh_partial(
    v: MediaPlaylistHandlerV,
    d: MediaPlaylistDescV,
    lo: int,
    i: int,
) -> MediaPlaylistHandlerV {
    let keep = evicted(v.segments, d.media_sequence);
    if i <= lo {
        MediaPlaylistHandlerV { segments: keep, ..v }
    } else {
        let fetch_issued = keep.len() == 0;
        MediaPlaylistHandlerV {
            next_action_id: if fetch_issued {
                id_advanced(v.next_action_id)
            } else {
                v.next_action_id
            },
            actions: if fetch_issued {
                v.actions.push(
                    ActionV::FetchData {
                        action_id: v.next_action_id,
                        url: resolved_url(v.url, d.segments[lo].uri)->Some_0,
                    },
                )
            } else {
                v.actions
            },
            segments: keep + new_entries(v, d, lo, keep.len() == 0).take(i - lo),
            last_media_sequence: (d.media_sequence + i - 1) as u64,
            ..v
        }
    }
}

/// Owns one live media playlist: polling cadence, segment queue, the
/// pipelined single-segment-in-flight fetch discipline, and the buffer of
/// decoded segments the host drains.
#[derive(Debug)]
pub struct MediaPlaylistHandler {
    media_playlist_url: String,
    action_factory: ActionFactory,
    action_queue: VecDeque<Action>,
    segment_queue: VecDeque<PendingSegment>,
    buffered_segments: VecDeque<Vec<u8>>,
    last_media_sequence: u64,
    is_initialized: bool,
    fetch_playlist_action_id: ActionId,
}

impl View for MediaPlaylistHandler {
    type V = MediaPlaylistHandlerV;

    closed spec fn view(&self) -> MediaPlaylistHandlerV {
        MediaPlaylistHandlerV {
            url: self.media_playlist_url@,
            next_action_id: self.action_factory@,
            actions: self.action_queue@.map_values(|a: Action| a@),
            segments: self.segment_queue@.map_values(|s: PendingSegment| s@),
            output: self.buffered_segments@.map_values(|b: Vec<u8>| b@),
            last_media_sequence: self.last_media_sequence,
            is_initialized: self.is_initialized,
            fetch_playlist_action_id: self.fetch_playlist_action_id@,
        }
    }
}

impl MediaPlaylistHandler {
    /// Books one completion the host reports for the fetch identified by
    /// `action_id`. A completion of the outstanding playlist fetch
    /// carries playlist text and runs the refresh algorithm (see
    /// [`Self::apply_playlist`]); any other completion carries one
    /// segment's transport-stream payload, which the injected `converter`
    /// turns into chunks booked by [`Self::complete_segment`].
    ///
    /// Fails, leaving the handler exactly as it was, when the playlist
    /// text lies outside the guarded domain or is rejected, when a new
    /// segment URI does not resolve, when the listed sequence numbers
    /// exceed the representable range, or when the converter rejects the
    /// payload. The converter decides segment success on its own; however
    /// it decides, its chunks are booked exactly as [`completed`] says.
    pub fn handle_data<C: SegmentConverter>(
        &mut self,
        action_id: ActionId,
        data: &[u8],
        converter: &mut C,
    ) -> (r: Result<(), Error>)
        requires
            old(self)@.wf(),
        ensures
            final(self)@.wf(),
            action_id@ == old(self)@.fetch_playlist_action_id ==> {
                &&& (r is Ok <==> playlist_data_accepted(old(self)@, data@))
                &&& final(self)@ == playlist_data_applied(old(self)@, data@)
                &&& (r matches Err(e) ==> e@.kind == ErrorKind::InvalidInput)
            },
            action_id@ != old(self)@.fetch_playlist_action_id ==> {
                &&& (r is Ok ==> exists|init: Seq<u8>, media: Seq<u8>|
                    final(self)@ == #[trigger] completed(old(self)@, init, media))
                &&& (r is Err ==> final(self)@ == old(self)@)
            },
    {
        proof {
            crate::action::lemma_id_eq(action_id, self.fetch_playlist_action_id);
        }
        if action_id == self.fetch_playlist_action_id {
            self.handle_data_as_playlist(data)
        } else {
            match converter.convert(data) {
                Err(e) => {
                    let mut e = e;
                    e.track("media_playlist_handler", 0, "segment payload rejected");
                    Err(e)
                },
                Ok(chunks) => {
                    let (init, media) = chunks;
                    let ghost iv = init@;
                    let ghost mv = media@;
                    let ghost v0 = self@;
                    self.complete_segment(init, media);
                    proof {
                        assert(self@ == completed(v0, iv, mv));
                    }
                    Ok(())
                },
            }
        }
    }

    /// A one-shot constructor for a handler whose first playlist text the
    /// host has already fetched: the bootstrap fetch action is allocated
    /// and immediately consumed, and the text is applied as the first
    /// refresh. Fails exactly where the refresh does, returning no
    /// handler at all.
    pub fn with_m3u8(
        action_factory: ActionFactory,
        media_playlist_url: String,
        m3u8: &str,
    ) -> (r: Result<Self, Error>)
        ensures
            ({
                let v1 = MediaPlaylistHandlerV {
                    actions: Seq::<ActionV>::empty(),
                    ..initial_state(action_factory@, media_playlist_url@)
                };
                &&& (r is Ok <==> playlist_data_accepted(v1, m3u8.spec_bytes()))
                &&& (r matches Ok(h) ==> h@ == playlist_data_applied(v1, m3u8.spec_bytes())
                    && h@.wf())
                &&& (r matches Err(e) ==> e@.kind == ErrorKind::InvalidInput)
            }),
    {
        let mut this = Self::new(action_factory, media_playlist_url);
        let _ = this.next_action();
        proof {
            assert(this@.actions =~= Seq::<ActionV>::empty());
        }
        match this.handle_data_as_playlist(m3u8.as_bytes()) {
            Ok(()) => Ok(this),
            Err(e) => Err(e),
        }
    }

    /// Runs the playlist branch of [`Self::handle_data`] on `data`
    /// unconditionally, as the one-shot constructor needs: first the
    /// guard, then the delegated parse, then the refresh.
    fn handle_data_as_playlist(&mut self, data: &[u8]) -> (r: Result<(), Error>)
        requires
            old(self)@.wf(),
        ensures
            final(self)@.wf(),
            r is Ok <==> playlist_data_accepted(old(self)@, data@),
            final(self)@ == playlist_data_applied(old(self)@, data@),
            r matches Err(e) ==> e@.kind == ErrorKind::InvalidInput,
    {
        if !playlist_text_guarded(data) {
            return Err(
                Error::new(
                    ErrorKind::InvalidInput,
                    "playlist text outside the supported range".to_owned(),
                ),
            );
        }
        match parse_media_playlist(data) {
            Err(e) => {
                let mut e = e;
                e.track("media_playlist_handler", 0, "playlist text rejected");
                Err(e)
            },
            Ok(desc) => {
                let n64 = desc.segments.len() as u64;
                if n64 > 0 && desc.media_sequence > u64::MAX - (n64 - 1) {
                    return Err(
                        Error::new(
                            ErrorKind::InvalidInput,
                            "listed sequence numbers exceed the representable range".to_owned(),
                        ),
                    );
                }
                proof {
                    assert(refresh_fits(desc@));
                }
                self.apply_playlist(&desc)
            },
        }
    }

    /// A fresh handler for the playlist at `media_playlist_url`:
    /// initializes empty queues and immediately enqueues the bootstrap
    /// playlist fetch, recorded as the outstanding one.
    pub fn new(action_factory: ActionFactory, media_playlist_url: String) -> (r: Self)
        ensures
            r@ == initial_state(action_factory@, media_playlist_url@),
            r@.wf(),
    {
        let mut factory = action_factory;
        let mut action_queue: VecDeque<Action> = VecDeque::new();
        let action = factory.fetch_data(media_playlist_url.clone());
        let action_id = action.id();
        action_queue.push_back(action);
        let r = MediaPlaylistHandler {
            media_playlist_url,
            action_factory: factory,
            action_queue,
            segment_queue: VecDeque::new(),
            buffered_segments: VecDeque::new(),
            last_media_sequence: 0,
            is_initialized: false,
            fetch_playlist_action_id: action_id,
        };
        proof {
            assert(r@.actions =~= initial_state(action_factory@, r.media_playlist_url@).actions);
            assert(r@.segments =~= Seq::<PendingSegmentV>::empty());
            assert(r@.output =~= Seq::<Seq<u8>>::empty());
        }
        r
    }

    /// Pops and returns the front of the action queue, or `None` when it
    /// is empty; never blocks, and on an empty queue changes nothing.
    pub fn next_action(&mut self) -> (r: Option<Action>)
        ensures
            old(self)@.actions.len() == 0 ==> r is None && final(self)@ == old(self)@,
            old(self)@.actions.len() > 0 ==> {
                &&& r matches Some(a) && a@ == old(self)@.actions[0]
                &&& final(self)@ == (MediaPlaylistHandlerV {
                    actions: old(self)@.actions.drop_first(),
                    ..old(self)@
                })
            },
    {
        let r = self.action_queue.pop_front();
        proof {
            if old(self)@.actions.len() == 0 {
                assert(final(self)@ =~= old(self)@);
            } else {
                assert(final(self)@.actions =~= old(self)@.actions.drop_first());
            }
        }
        r
    }

    /// Pops and returns the front of the decoded-output buffer, or `None`
    /// when it is empty; on an empty buffer changes nothing.
    pub fn next_segment(&mut self) -> (r: Option<Vec<u8>>)
        ensures
            old(self)@.output.len() == 0 ==> r is None && final(self)@ == old(self)@,
            old(self)@.output.len() > 0 ==> {
                &&& r matches Some(b) && b@ == old(self)@.output[0]
                &&& final(self)@ == (MediaPlaylistHandlerV {
                    output: old(self)@.output.drop_first(),
                    ..old(self)@
                })
            },
    {
        let r = self.buffered_segments.pop_front();
        proof {
            if old(self)@.output.len() == 0 {
                assert(final(self)@ =~= old(self)@);
            } else {
                assert(final(self)@.output =~= old(self)@.output.drop_first());
            }
        }
        r
    }

    /// On any timeout completion: unconditionally enqueues a fresh fetch
    /// of the playlist itself and records it as the outstanding playlist
    /// fetch. The delivered identifier is deliberately not validated (see
    /// [`timed_out`]); the call never fails.
    pub fn handle_timeout(&mut self, action_id: ActionId) -> (r: Result<(), Error>)
        ensures
            r is Ok,
            final(self)@ == timed_out(old(self)@),
            old(self)@.wf() ==> final(self)@.wf(),
    {
        let _ = action_id;
        let action = self.action_factory.fetch_data(self.media_playlist_url.clone());
        let id = action.id();
        self.action_queue.push_back(action);
        self.fetch_playlist_action_id = id;
        proof {
            assert(final(self)@.actions =~= timed_out(old(self)@).actions);
        }
        Ok(())
    }

    /// Runs the playlist-refresh algorithm on already-parsed playlist
    /// data (see [`refreshed`]): evicts the entries the live window has
    /// slid past, appends each new segment — fetching the first
    /// immediately when the pipeline is idle — advances the dedup
    /// watermark, and re-arms the poll with one `SetTimeout` at the
    /// target duration tightened by every new segment's duration.
    ///
    /// Succeeds if and only if every new segment's URI resolves against
    /// the handler's base URL; on failure the handler is left exactly as
    /// it was, so the host may retry externally.
    pub fn apply_playlist(&mut self, desc: &MediaPlaylistDesc) -> (r: Result<(), Error>)
        requires
            old(self)@.wf(),
            refresh_fits(desc@),
        ensures
            final(self)@.wf(),
            r is Ok <==> refresh_resolves(old(self)@, desc@),
            r is Ok ==> final(self)@ == refreshed(old(self)@, desc@),
            r matches Err(e) ==> final(self)@ == old(self)@ && e@.kind
                == ErrorKind::InvalidInput,
    {
        let ghost v0 = self@;
        let ghost d = desc@;
        let ghost lo = first_new_index(d, v0.last_media_sequence);
        let n = desc.segments.len();
        let ms = desc.media_sequence;

        // Resolve every new segment's URL before touching any state, so
        // that a failing resolution leaves the handler exactly as it was.
        let mut urls: Vec<String> = Vec::new();
        let mut i: usize = 0;
        while i < n
            invariant
                self@ == v0,
                d == desc@,
                v0.wf(),
                refresh_fits(d),
                n == d.segments.len(),
                ms == d.media_sequence,
                lo == first_new_index(d, v0.last_media_sequence),
                i <= n,
                i <= lo ==> urls@.len() == 0,
                i > lo ==> urls@.len() == i - lo,
                forall|k: int|
                    0 <= k < urls@.len() ==> Some(#[trigger] urls@[k]@) == resolved_url(
                        v0.url,
                        d.segments[lo + k].uri,
                    ),
                forall|k: int|
                    lo <= k < i ==> #[trigger] resolved_url(v0.url, d.segments[k].uri) is Some,
            decreases n - i,
        {
            let seq_no = ms + (i as u64);
            if seq_no > self.last_media_sequence {
                proof {
                    assert(i >= lo);
                }
                match resolve_url(
                    self.media_playlist_url.as_str(),
                    desc.segments[i].uri.as_str(),
                ) {
                    Ok(u) => {
                        urls.push(u);
                    },
                    Err(e) => {
                        proof {
                            assert(resolved_url(v0.url, d.segments[i as int].uri) is None);
                            assert(!refresh_resolves(v0, d));
                        }
                        let mut e = e;
                        e.track("media_playlist_handler", 0, "segment url did not resolve");
                        return Err(e);
                    },
                }
            } else {
                proof {
                    assert(i < lo);
                }
            }
            i = i + 1;
        }
        proof {
            assert(refresh_resolves(v0, d));
        }

        // Evict everything the live window has slid past: the queue is
        // sorted, so the stale entries are exactly a prefix.
        let ghost mut j: int = 0;
        proof {
            assert(v0.segments.skip(0) =~= v0.segments);
        }
        while self.segment_queue.len() > 0 && self.segment_queue[0].sequence_number < ms
            invariant
                v0.wf(),
                ms == d.media_sequence,
                0 <= j <= v0.segments.len(),
                self@ == (MediaPlaylistHandlerV { segments: v0.segments.skip(j), ..v0 }),
                forall|k: int| 0 <= k < j ==> v0.segments[k].sequence_number < ms,
            decreases self.segment_queue.len(),
        {
            let ghost qv = self@.segments;
            proof {
                assert(qv[0] == self.segment_queue@[0]@);
                assert(qv[0].sequence_number < ms);
                assert(qv == v0.segments.skip(j));
                assert(v0.segments.skip(j).len() == v0.segments.len() - j);
                assert(j < v0.segments.len());
                assert(qv[0] == v0.segments.skip(j)[0]);
                assert(v0.segments.skip(j)[0] == v0.segments[j + 0]);
            }
            let _ = self.segment_queue.pop_front();
            proof {
                j = j + 1;
                assert(self@.segments =~= qv.drop_first());
                assert(qv.drop_first() =~= v0.segments.skip(j));
                assert(self@ == (MediaPlaylistHandlerV { segments: v0.segments.skip(j), ..v0 }));
            }
        }
        let ghost keep = evicted(v0.segments, d.media_sequence);
        proof {
            assert(self@.segments.len() == v0.segments.len() - j);
            if j < v0.segments.len() {
                assert(self.segment_queue.len() > 0);
                assert(self@.segments[0] == self.segment_queue@[0]@);
                assert(self@.segments[0] == v0.segments[j]);
                assert(v0.segments[j].sequence_number >= ms);
            }
            lemma_evicted_is_suffix(v0.segments, ms, j);
            assert(self@ == refresh_partial(v0, d, lo, 0));
        }

        // Append each new segment in listed order, starting its fetch
        // immediately when it finds the pipeline idle, and tighten the
        // polling interval by its duration.
        let mut polling_interval: u64 = desc.target_duration_ms;
        let mut used: usize = 0;
        let mut idx: usize = 0;
        while idx < n
            invariant
                d == desc@,
                v0.wf(),
                refresh_fits(d),
                refresh_resolves(v0, d),
                n == d.segments.len(),
                ms == d.media_sequence,
                lo == first_new_index(d, v0.last_media_sequence),
                keep == evicted(v0.segments, d.media_sequence),
                idx <= n,
                idx <= lo ==> used == 0,
                idx > lo ==> used == idx - lo,
                lo < n ==> urls@.len() == n - lo,
                lo >= n ==> urls@.len() == 0,
                forall|k: int|
                    0 <= k < urls@.len() ==> Some(#[trigger] urls@[k]@) == resolved_url(
                        v0.url,
                        d.segments[lo + k].uri,
                    ),
                self@ == refresh_partial(v0, d, lo, idx as int),
                polling_interval == interval_upto(d.target_duration_ms, d, lo, idx as int),
            decreases n - idx,
        {
            let ghost before = self@;
            let seq_no = ms + (idx as u64);
            if seq_no > self.last_media_sequence {
                proof {
                    assert(idx >= lo);
                }
                self.last_media_sequence = seq_no;
                let url = urls[used].clone();
                let ghost uv = url@;
                used = used + 1;
                let ongoing = if self.segment_queue.len() == 0 {
                    let a = self.action_factory.fetch_data(url.clone());
                    self.action_queue.push_back(a);
                    true
                } else {
                    false
                };
                self.segment_queue.push_back(
                    PendingSegment { sequence_number: seq_no, in_flight: ongoing, url },
                );
                let dur = desc.segments[idx].duration_ms;
                if dur < polling_interval {
                    polling_interval = dur;
                }
                proof {
                    let part = refresh_partial(v0, d, lo, idx + 1);
                    let news = new_entries(v0, d, lo, keep.len() == 0);
                    let k = idx - lo;
                    assert(before.segments.len() == 0 <==> (keep.len() == 0 && idx == lo));
                    assert(Some(uv) == resolved_url(v0.url, d.segments[lo + k].uri));
                    assert(news[k] == (PendingSegmentV {
                        sequence_number: seq_no,
                        in_flight: ongoing,
                        url: uv,
                    }));
                    assert(self@.segments =~= before.segments.push(news[k]));
                    assert(before.segments == keep + news.take(k));
                    assert((keep + news.take(k)).push(news[k]) =~= keep + news.take(k + 1));
                    assert(self@.segments =~= part.segments);
                    assert(self@.actions =~= part.actions);
                    assert(self@ == part);
                }
            } else {
                proof {
                    assert(idx < lo);
                    assert(refresh_partial(v0, d, lo, idx + 1) == refresh_partial(
                        v0,
                        d,
                        lo,
                        idx as int,
                    ));
                }
            }
            idx = idx + 1;
        }

        // Re-arm the poll: the sole re-scheduling mechanism.
        let timeout_action = self.action_factory.set_timeout(polling_interval);
        self.action_queue.push_back(timeout_action);
        proof {
            let rf = refreshed(v0, d);
            let part = refresh_partial(v0, d, lo, n as int);
            assert(self@.actions =~= part.actions.push(
                ActionV::SetTimeout {
                    action_id: part.next_action_id,
                    duration_ms: polling_interval,
                },
            ));
            assert(part.actions.push(
                ActionV::SetTimeout {
                    action_id: part.next_action_id,
                    duration_ms: polling_interval,
                },
            ) =~= rf.actions);
            assert(self@.actions =~= rf.actions);
            assert(self@.segments =~= rf.segments);
            assert(self@ == rf);
            lemma_refreshed_wf(v0, d, j);
        }
        Ok(())
    }

    /// Books one completed segment fetch whose payload the delegated
    /// converter already turned into `initialization_segment` and
    /// `media_segment`: consumes the in-flight front of the segment queue
    /// (a front not in flight is put back unconsumed — the completion was
    /// spurious), requests the fetch of the entry now waiting at the
    /// front, and appends the chunks to the output buffer — the
    /// initialization chunk exactly once per handler lifetime, before the
    /// first media chunk.
    pub fn complete_segment(
        &mut self,
        initialization_segment: Vec<u8>,
        media_segment: Vec<u8>,
    )
        requires
            old(self)@.wf(),
        ensures
            final(self)@ == completed(
                old(self)@,
                initialization_segment@,
                media_segment@,
            ),
            final(self)@.wf(),
    {
        let ghost v0 = self@;
        let ghost rest = if v0.segments.len() > 0 && v0.segments[0].in_flight {
            v0.segments.drop_first()
        } else {
            v0.segments
        };
        if let Some(front) = self.segment_queue.pop_front() {
            if !front.in_flight {
                self.segment_queue.push_front(front);
            }
        }
        proof {
            assert(self@.segments =~= rest);
            assert(self@ == (MediaPlaylistHandlerV { segments: rest, ..v0 }));
        }
        if let Some(next) = self.segment_queue.pop_front() {
            let mut next = next;
            if !next.in_flight {
                let action = self.action_factory.fetch_data(next.url.clone());
                self.action_queue.push_back(action);
                next.in_flight = true;
            }
            self.segment_queue.push_front(next);
        }
        proof {
            let fetch_next = rest.len() > 0 && !rest[0].in_flight;
            if fetch_next {
                assert(self@.segments =~= rest.update(
                    0,
                    PendingSegmentV { in_flight: true, ..rest[0] },
                ));
                assert(self@.actions =~= v0.actions.push(
                    ActionV::FetchData { action_id: v0.next_action_id, url: rest[0].url },
                ));
            } else {
                if rest.len() > 0 {
                    assert(self@.segments =~= rest);
                }
            }
        }
        if !self.is_initialized {
            self.buffered_segments.push_back(initialization_segment);
            self.is_initialized = true;
            proof {
                assert(self@.output =~= v0.output.push(initialization_segment@));
            }
        }
        self.buffered_segments.push_back(media_segment);
        proof {
            let c = completed(v0, initialization_segment@, media_segment@);
            assert(self@.output =~= c.output);
            assert(self@ == c);
        }
    }
}

} // verus!
