//! JSON encoding of the values that cross the host boundary.
//!
//! An action crosses as a tagged record —
//! `{"type":"FetchData","action_id":N,"url":"…"}` or
//! `{"type":"SetTimeout","action_id":N,"duration":N}` (milliseconds) —
//! and an error as `{"kind":"…","reason":"…","trace":[…]}` with one
//! `{"file":…,"line":…}` record per trace entry, carrying a `"message"`
//! key exactly when the entry has a message. The encodings are defined
//! character by character as spec functions and the encoders are proved
//! to produce them.

use vstd::prelude::*;

use vstd::string::{StrSliceExecFns, StringExecFns};

use crate::action::{Action, ActionV};
use crate::error::{Error, ErrorKind, ErrorV, TraceEntryV};
use crate::text::{push_char, push_u64_decimal, spec_decimal};

verus! {

/// The lower-case hexadecimal digit character for a value below sixteen.
pub open spec fn spec_hex_digit(n: int) -> char {
    if n < 10 {
        ((48 + n) as u8) as char
    } else {
        ((87 + n) as u8) as char
    }
}

/// How one character appears inside a JSON string literal: quote,
/// backslash and the common control characters as two-character escapes,
/// any other control character as `\u00XX`, everything else as itself.
pub open spec fn json_escaped_char(c: char) -> Seq<char> {
    if c == '"' {
        seq!['\\', '"']
    } else if c == '\\' {
        seq!['\\', '\\']
    } else if c == '\n' {
        seq!['\\', 'n']
    } else if c == '\r' {
        seq!['\\', 'r']
    } else if c == '\t' {
        seq!['\\', 't']
    } else if (c as u32) < 0x20 {
        seq![
            '\\',
            'u',
            '0',
            '0',
            spec_hex_digit((c as u32) as int / 16),
            spec_hex_digit((c as u32) as int % 16),
        ]
    } else {
        seq![c]
    }
}

/// A whole text as it appears inside a JSON string literal.
pub open spec fn json_escaped(s: Seq<char>) -> Seq<char>
    decreases s.len(),
{
    if s.len() == 0 {
        Seq::<char>::empty()
    } else {
        json_escaped_char(s[0]) + json_escaped(s.drop_first())
    }
}

/// Escaping a text extended by one character appends that character's
/// escape.
proof fn lemma_json_escaped_push(s: Seq<char>, c: char)
    ensures
        json_escaped(s.push(c)) == json_escaped(s) + json_escaped_char(c),
    decreases s.len(),
{
    if s.len() == 0 {
        assert(s.push(c).drop_first() =~= s);
        assert(json_escaped(s.push(c)) =~= json_escaped(s) + json_escaped_char(c));
    } else {
        assert(s.push(c).drop_first() =~= s.drop_first().push(c));
        lemma_json_escaped_push(s.drop_first(), c);
        assert(json_escaped(s.push(c)) =~= json_escaped(s) + json_escaped_char(c));
    }
}

/// The lower-case hexadecimal digit character of `d`.
fn hex_digit(d: u8) -> (c: char)
    requires
        d < 16,
    ensures
        c == spec_hex_digit(d as int),
{
    if d < 10 {
        (48 + d) as char
    } else {
        (87 + d) as char
    }
}

/// Appends `s`, escaped for a JSON string literal, to `out`.
fn push_json_escaped(out: &mut String, s: &str)
    ensures
        final(out)@ == old(out)@ + json_escaped(s@),
{
    let n = s.unicode_len();
    let mut i: usize = 0;
    while i < n
        invariant
            i <= n,
            n == s@.len(),
            out@ == old(out)@ + json_escaped(s@.take(i as int)),
        decreases n - i,
    {
        let c = s.get_char(i);
        proof {
            lemma_json_escaped_push(s@.take(i as int), c);
            assert(s@.take(i as int).push(c) =~= s@.take(i + 1));
        }
        if c == '"' {
            push_char(out, '\\');
            push_char(out, '"');
        } else if c == '\\' {
            push_char(out, '\\');
            push_char(out, '\\');
        } else if c == '\n' {
            push_char(out, '\\');
            push_char(out, 'n');
        } else if c == '\r' {
            push_char(out, '\\');
            push_char(out, 'r');
        } else if c == '\t' {
            push_char(out, '\\');
            push_char(out, 't');
        } else if (c as u32) < 0x20 {
            let code = c as u32;
            push_char(out, '\\');
            push_char(out, 'u');
            push_char(out, '0');
            push_char(out, '0');
            push_char(out, hex_digit((code / 16) as u8));
            push_char(out, hex_digit((code % 16) as u8));
        } else {
            push_char(out, c);
        }
        proof {
            assert(out@ =~= old(out)@ + json_escaped(s@.take(i + 1)));
        }
        i = i + 1;
    }
    proof {
        assert(s@.take(n as int) =~= s@);
    }
}

/// The name under which an error kind crosses the boundary.
pub open spec fn kind_json(k: ErrorKind) -> Seq<char> {
    match k {
        ErrorKind::InvalidInput => "InvalidInput"@,
        ErrorKind::Other => "Other"@,
    }
}

/// One trace entry's record; the `"message"` key appears exactly when
/// the entry carries a message.
pub open spec fn trace_entry_json(t: TraceEntryV) -> Seq<char> {
    "{\"file\":\""@ + json_escaped(t.file) + "\",\"line\":"@ + spec_decimal(t.line as int) + (
    if t.message.len() == 0 {
        Seq::<char>::empty()
    } else {
        ",\"message\":\""@ + json_escaped(t.message) + "\""@
    }) + "}"@
}

/// A trace's records, comma-separated.
pub open spec fn trace_json(ts: Seq<TraceEntryV>) -> Seq<char>
    decreases ts.len(),
{
    if ts.len() == 0 {
        Seq::<char>::empty()
    } else if ts.len() == 1 {
        trace_entry_json(ts[0])
    } else {
        trace_entry_json(ts[0]) + ","@ + trace_json(ts.drop_first())
    }
}

/// A trace extended by one entry appends that entry's record, preceded
/// by a comma unless it is the first.
proof fn lemma_trace_json_push(ts: Seq<TraceEntryV>, t: TraceEntryV)
    ensures
        trace_json(ts.push(t)) == if ts.len() == 0 {
            trace_entry_json(t)
        } else {
            trace_json(ts) + ","@ + trace_entry_json(t)
        },
    decreases ts.len(),
{
    if ts.len() == 0 {
        assert(ts.push(t)[0] == t);
    } else {
        assert(ts.push(t).drop_first() =~= ts.drop_first().push(t));
        lemma_trace_json_push(ts.drop_first(), t);
        if ts.len() == 1 {
            assert(trace_json(ts.push(t)) =~= trace_json(ts) + ","@ + trace_entry_json(t));
        } else {
            assert(trace_json(ts.push(t)) =~= trace_json(ts) + ","@ + trace_entry_json(t));
        }
    }
}

/// The record under which an error crosses the boundary.
pub open spec fn error_json(e: ErrorV) -> Seq<char> {
    "{\"kind\":\""@ + kind_json(e.kind) + "\",\"reason\":\""@ + json_escaped(e.reason)
        + "\",\"trace\":["@ + trace_json(e.trace) + "]}"@
}

/// The record under which an action crosses the boundary.
pub open spec fn action_json(a: ActionV) -> Seq<char> {
    match a {
        ActionV::FetchData { action_id, url } => "{\"type\":\"FetchData\",\"action_id\":"@
            + spec_decimal(action_id as int) + ",\"url\":\""@ + json_escaped(url) + "\"}"@,
        ActionV::SetTimeout { action_id, duration_ms } => "{\"type\":\"SetTimeout\",\"action_id\":"@
            + spec_decimal(action_id as int) + ",\"duration\":"@ + spec_decimal(
            duration_ms as int,
        ) + "}"@,
    }
}

impl Error {
    /// This error, serialized for transmission across the boundary.
    pub fn to_json_string(&self) -> (r: String)
        ensures
            r@ == error_json(self@),
    {
        let mut out = String::new();
        out.append("{\"kind\":\"");
        match self.kind() {
            ErrorKind::InvalidInput => out.append("InvalidInput"),
            ErrorKind::Other => out.append("Other"),
        }
        out.append("\",\"reason\":\"");
        push_json_escaped(&mut out, self.reason().as_str());
        out.append("\",\"trace\":[");
        let ghost header = out@;
        let entries = self.trace();
        let m = entries.len();
        let mut i: usize = 0;
        while i < m
            invariant
                i <= m,
                m == entries@.len(),
                m == self@.trace.len(),
                forall|k: int| 0 <= k < m ==> entries@[k]@ == self@.trace[k],
                out@ == header + trace_json(self@.trace.take(i as int)),
            decreases m - i,
        {
            let ghost done = self@.trace.take(i as int);
            if i > 0 {
                out.append(",");
            }
            let entry = &entries[i];
            out.append("{\"file\":\"");
            push_json_escaped(&mut out, entry.file().as_str());
            out.append("\",\"line\":");
            push_u64_decimal(&mut out, entry.line());
            if !entry.message().as_str().is_empty() {
                out.append(",\"message\":\"");
                push_json_escaped(&mut out, entry.message().as_str());
                out.append("\"");
            }
            out.append("}");
            proof {
                lemma_trace_json_push(done, self@.trace[i as int]);
                assert(done.push(self@.trace[i as int]) =~= self@.trace.take(i + 1));
                assert(out@ =~= header + trace_json(self@.trace.take(i + 1)));
            }
            i = i + 1;
        }
        out.append("]}");
        proof {
            assert(self@.trace.take(m as int) =~= self@.trace);
            assert(out@ =~= error_json(self@));
        }
        out
    }
}

impl Action {
    /// This action, serialized for transmission across the boundary.
    pub fn to_json_string(&self) -> (r: String)
        ensures
            r@ == action_json(self@),
    {
        let mut out = String::new();
        match self {
            Action::FetchData { action_id, url } => {
                out.append("{\"type\":\"FetchData\",\"action_id\":");
                push_u64_decimal(&mut out, action_id.as_u64());
                out.append(",\"url\":\"");
                push_json_escaped(&mut out, url.as_str());
                out.append("\"}");
            },
            Action::SetTimeout { action_id, duration_ms } => {
                out.append("{\"type\":\"SetTimeout\",\"action_id\":");
                push_u64_decimal(&mut out, action_id.as_u64());
                out.append(",\"duration\":");
                push_u64_decimal(&mut out, *duration_ms);
                out.append("}");
            },
        }
        proof {
            assert(out@ =~= action_json(self@));
        }
        out
    }
}

} // verus!
