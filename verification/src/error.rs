//! The error model: a two-kind taxonomy plus a diagnostic trace that is
//! accumulated as an error propagates up through call boundaries, and that
//! can be serialized for transmission back across the host boundary.
//!
//! Every fallible step of the engine either succeeds and mutates state, or
//! fails and leaves state unchanged, returning one of these errors to the
//! immediate caller; the engine never retries on its own.

use vstd::prelude::*;

verus! {

/// The list of the possible error kinds.
#[derive(Clone, Copy, Debug, PartialEq, Eq, Structural)]
pub enum ErrorKind {
    /// Input data is invalid: malformed playlist text, malformed URL,
    /// malformed UTF-8, an unknown action id, a repeated `play` call, or an
    /// empty variant list.
    InvalidInput,
    /// Anything else, including conversion failures not classed as input
    /// errors.
    Other,
}

/// The mathematical value of one diagnostic trace entry.
pub struct TraceEntryV {
    pub file: Seq<char>,
    pub line: u64,
    pub message: Seq<char>,
}

/// One entry of the diagnostic trace: where an error passed through, with
/// an optional message (the empty string stands for "no message").
#[derive(Clone, Debug)]
pub struct TraceEntry {
    file: String,
    line: u64,
    message: String,
}

impl View for TraceEntry {
    type V = TraceEntryV;

    closed spec fn view(&self) -> TraceEntryV {
        TraceEntryV { file: self.file@, line: self.line, message: self.message@ }
    }
}

impl TraceEntry {
    /// The location's file (or component) label.
    pub fn file(&self) -> (r: &String)
        ensures
            r@ == self@.file,
    {
        &self.file
    }

    /// The location's line, `0` when the recording site had none.
    pub fn line(&self) -> (r: u64)
        ensures
            r == self@.line,
    {
        self.line
    }

    /// The entry's message; empty when none was recorded.
    pub fn message(&self) -> (r: &String)
        ensures
            r@ == self@.message,
    {
        &self.message
    }
}

/// The mathematical value of an [`Error`].
pub struct ErrorV {
    pub kind: ErrorKind,
    pub reason: Seq<char>,
    pub trace: Seq<TraceEntryV>,
}

/// This crate specific error type: a kind, the underlying cause's message
/// (empty when there is none), and the diagnostic trace collected while the
/// error propagated.
#[derive(Clone, Debug)]
pub struct Error {
    kind: ErrorKind,
    reason: String,
    trace: Vec<TraceEntry>,
}

impl View for Error {
    type V = ErrorV;

    closed spec fn view(&self) -> ErrorV {
        ErrorV {
            kind: self.kind,
            reason: self.reason@,
            trace: Seq::new(self.trace@.len(), |i: int| self.trace@[i]@),
        }
    }
}

impl Error {
    /// An error of the given kind with the given underlying reason and an
    /// empty trace.
    pub fn new(kind: ErrorKind, reason: String) -> (r: Self)
        ensures
            r@ == (ErrorV { kind, reason: reason@, trace: Seq::<TraceEntryV>::empty() }),
    {
        let r = Error { kind, reason, trace: Vec::new() };
        proof {
            assert(r@.trace =~= Seq::<TraceEntryV>::empty());
        }
        r
    }

    /// This error's kind.
    pub fn kind(&self) -> (r: ErrorKind)
        ensures
            r == self@.kind,
    {
        self.kind
    }

    /// This error's underlying reason; empty when there is none.
    pub fn reason(&self) -> (r: &String)
        ensures
            r@ == self@.reason,
    {
        &self.reason
    }

    /// Appends one location to the diagnostic trace, as a propagation
    /// boundary does. Sites that have no meaningful line number record `0`.
    pub fn track(&mut self, file: &str, line: u64, message: &str)
        ensures
            final(self)@ == (ErrorV {
                trace: old(self)@.trace.push(
                    TraceEntryV { file: file@, line, message: message@ },
                ),
                ..old(self)@
            }),
    {
        let ghost prev = self@.trace;
        self.trace.push(
            TraceEntry { file: file.to_owned(), line, message: message.to_owned() },
        );
        proof {
            assert(self@.trace =~= prev.push(
                TraceEntryV { file: file@, line, message: message@ },
            ));
        }
    }

    /// The diagnostic trace collected so far, oldest entry first.
    pub fn trace(&self) -> (r: &Vec<TraceEntry>)
        ensures
            r@.len() == self@.trace.len(),
            forall|i: int| 0 <= i < r@.len() ==> r@[i]@ == self@.trace[i],
    {
        &self.trace
    }
}

} // verus!
