//! The action model: the vocabulary of effects the engine can request from
//! its host, and a collision-free identifier scheme that lets a later
//! completion be correlated with the request that caused it.
//!
//! An [`ActionId`] is a 64-bit integer split into a high 32-bit *scope*
//! (which handler generation issued it) and a low 32-bit *sequence* private
//! to that scope. Sequence numbers issued by one factory are strictly
//! increasing until the scope's range is exhausted, at which point the
//! counter saturates rather than bleed into the next scope; distinct scopes
//! therefore never emit equal identifiers.

use vstd::prelude::*;

verus! {

/// Identifies which handler generation (e.g. which variant stream) an
/// action identifier belongs to.
pub type StreamId = u32;

/// The size of one scope's identifier range: scope lives in the high
/// 32 bits of an identifier, the per-scope sequence in the low 32 bits.
pub const SCOPE_BASE: u64 = 0x1_0000_0000;

/// The scope field of an identifier value.
pub open spec fn id_scope(id: u64) -> u64 {
    id / SCOPE_BASE
}

/// The per-scope sequence field of an identifier value.
pub open spec fn id_sequence(id: u64) -> u64 {
    id % SCOPE_BASE
}

/// The identifier value that follows `id` in its scope. The sequence
/// saturates at the top of the scope instead of spilling into the next
/// scope's range.
pub open spec fn id_advanced(id: u64) -> u64 {
    if id % SCOPE_BASE < SCOPE_BASE - 1 {
        (id + 1) as u64
    } else {
        id
    }
}

/// An opaque, totally ordered identifier carried by every action and by
/// every completion the host reports back.
#[derive(Clone, Copy, Debug, PartialEq, Eq, Structural, PartialOrd, Ord, Hash)]
pub struct ActionId(u64);

impl View for ActionId {
    type V = u64;

    closed spec fn view(&self) -> u64 {
        self.0
    }
}

impl ActionId {
    /// The identifier's 64-bit value, as it crosses the host boundary.
    pub fn as_u64(&self) -> (r: u64)
        ensures
            r == self@,
    {
        self.0
    }

    /// The scope this identifier was issued under.
    pub fn media_playlist_id(&self) -> (r: StreamId)
        ensures
            r == id_scope(self@),
    {
        proof {
            assert(self.0 / SCOPE_BASE <= u32::MAX as u64);
        }
        (self.0 / SCOPE_BASE) as u32
    }

    /// The first identifier of the scope that follows this identifier's
    /// scope. Used when a handler is replaced, so that completions for the
    /// old handler remain distinguishable from the new one's.
    pub fn clone_for_new_playlist(&self) -> (r: ActionId)
        requires
            id_scope(self@) < u32::MAX,
        ensures
            r@ == (id_scope(self@) + 1) * SCOPE_BASE,
            id_scope(r@) == id_scope(self@) + 1,
            id_sequence(r@) == 0,
    {
        let scope = self.0 / SCOPE_BASE;
        let r = ActionId((scope + 1) * SCOPE_BASE);
        proof {
            assert(r.0 / SCOPE_BASE == scope + 1 && r.0 % SCOPE_BASE == 0) by (nonlinear_arith)
                requires
                    r.0 == (scope + 1) * SCOPE_BASE,
                    scope + 1 <= u32::MAX,
            ;
        }
        r
    }

    /// Returns this identifier and advances `self` to the next one in the
    /// same scope (saturating at the scope's top).
    pub fn next(&mut self) -> (id: ActionId)
        ensures
            id == *old(self),
            final(self)@ == id_advanced(old(self)@),
            id_scope(final(self)@) == id_scope(old(self)@),
    {
        let id = *self;
        if self.0 % SCOPE_BASE < SCOPE_BASE - 1 {
            proof {
                assert(self.0 < u64::MAX);
                assert(((self.0 + 1) as u64) / SCOPE_BASE == self.0 / SCOPE_BASE)
                    by (nonlinear_arith)
                    requires
                        self.0 % SCOPE_BASE < SCOPE_BASE - 1,
                        self.0 < u64::MAX,
                ;
            }
            self.0 = self.0 + 1;
        }
        id
    }
}

impl Default for ActionId {
    /// The identifier `0`: sequence `0` of scope `0`.
    fn default() -> (r: Self)
        ensures
            r@ == 0,
    {
        ActionId(0)
    }
}

impl From<u64> for ActionId {
    fn from(v: u64) -> (r: Self)
        ensures
            r@ == v,
    {
        ActionId(v)
    }
}

impl vstd::std_specs::convert::FromSpecImpl<u64> for ActionId {
    open spec fn obeys_from_spec() -> bool {
        true
    }

    closed spec fn from_spec(v: u64) -> Self {
        ActionId(v)
    }
}

/// The mathematical value of an [`Action`]: the same data with the url
/// viewed as a character sequence.
pub enum ActionV {
    FetchData { action_id: u64, url: Seq<char> },
    SetTimeout { action_id: u64, duration_ms: u64 },
}

impl ActionV {
    /// The identifier carried by the action, whichever variant it is.
    pub open spec fn id(self) -> u64 {
        match self {
            ActionV::FetchData { action_id, .. } => action_id,
            ActionV::SetTimeout { action_id, .. } => action_id,
        }
    }
}

/// An effect the engine asks the host to perform: fetch the bytes behind a
/// URL, or invoke the timeout callback after a duration (in milliseconds)
/// has elapsed. Immutable once created; consumed exactly once by the host.
#[derive(Debug)]
pub enum Action {
    FetchData { action_id: ActionId, url: String },
    SetTimeout { action_id: ActionId, duration_ms: u64 },
}

impl View for Action {
    type V = ActionV;

    open spec fn view(&self) -> ActionV {
        match self {
            Action::FetchData { action_id, url } => ActionV::FetchData {
                action_id: action_id@,
                url: url@,
            },
            Action::SetTimeout { action_id, duration_ms } => ActionV::SetTimeout {
                action_id: action_id@,
                duration_ms: *duration_ms,
            },
        }
    }
}

impl Action {
    /// The identifier carried by this action.
    pub fn id(&self) -> (r: ActionId)
        ensures
            r@ == self@.id(),
    {
        match self {
            Action::FetchData { action_id, .. } => *action_id,
            Action::SetTimeout { action_id, .. } => *action_id,
        }
    }
}

/// Allocates the identifiers for one handler's actions. Constructed with a
/// scope value; every identifier it emits lies inside that scope's range.
#[derive(Debug)]
pub struct ActionFactory {
    next_action_id: ActionId,
}

impl View for ActionFactory {
    type V = u64;

    closed spec fn view(&self) -> u64 {
        self.next_action_id@
    }
}

impl ActionFactory {
    /// A factory whose identifiers all carry the scope `stream_id`,
    /// starting at sequence `0`.
    pub fn new(stream_id: StreamId) -> (r: Self)
        ensures
            r@ == (stream_id as u64) * SCOPE_BASE,
            id_scope(r@) == stream_id,
            id_sequence(r@) == 0,
    {
        let next = (stream_id as u64) * SCOPE_BASE;
        proof {
            assert(next / SCOPE_BASE == stream_id && next % SCOPE_BASE == 0) by (nonlinear_arith)
                requires
                    next == (stream_id as u64) * SCOPE_BASE,
                    stream_id <= u32::MAX,
            ;
        }
        ActionFactory { next_action_id: ActionId(next) }
    }

    /// The scope this factory allocates under.
    pub fn media_playlist_id(&self) -> (r: StreamId)
        ensures
            r == id_scope(self@),
    {
        self.next_action_id.media_playlist_id()
    }

    /// A fully formed fetch request for `url`, carrying the next identifier
    /// of this factory's scope.
    pub fn fetch_data(&mut self, url: String) -> (r: Action)
        ensures
            r@ == (ActionV::FetchData { action_id: old(self)@, url: url@ }),
            final(self)@ == id_advanced(old(self)@),
            id_scope(final(self)@) == id_scope(old(self)@),
    {
        let action_id = self.next_action_id.next();
        Action::FetchData { action_id, url }
    }

    /// A fully formed timeout request for `duration_ms` milliseconds,
    /// carrying the next identifier of this factory's scope.
    pub fn set_timeout(&mut self, duration_ms: u64) -> (r: Action)
        ensures
            r@ == (ActionV::SetTimeout { action_id: old(self)@, duration_ms }),
            final(self)@ == id_advanced(old(self)@),
            id_scope(final(self)@) == id_scope(old(self)@),
    {
        let action_id = self.next_action_id.next();
        Action::SetTimeout { action_id, duration_ms }
    }
}

/// Two identifiers are equal exactly when their values are: an
/// [`ActionId`] is nothing but its 64-bit value.
pub proof fn lemma_id_eq(a: ActionId, b: ActionId)
    ensures
        (a == b) <==> (a@ == b@),
{
}

/// Identifiers issued under distinct scopes are never equal: an
/// identifier's scope field is recoverable from its value, so values from
/// different scopes differ.
pub proof fn lemma_distinct_scopes_distinct_ids(a: u64, b: u64)
    requires
        id_scope(a) != id_scope(b),
    ensures
        a != b,
{
}

} // verus!
