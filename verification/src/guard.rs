//! The engine-side validation of playlist text, run before the delegated
//! parser sees it.
//!
//! The delegated parser is only specified — and only relied upon — on
//! text whose tag lines keep the few numbers its arithmetic computes with
//! inside their supported ranges. The parser splits the text at line
//! feeds and trims Unicode whitespace from both ends of every line before
//! dispatching on the tag name, so [`playlist_text_safe`] states its
//! conditions over exactly that trimmed span. For every trimmed line that
//! starts with `#EXT`:
//!
//! - on a `#EXTINF:` line, the duration (the text up to the first comma,
//!   or the line's end) is a plain non-negative decimal number — digits
//!   with at most one dot, at most 19 digits before the dot;
//! - on a `#EXT-X-DATERANGE:` line, the value of every `DURATION` or
//!   `PLANNED-DURATION` attribute is such a plain decimal number;
//! - on a `#EXT-X-MEDIA-SEQUENCE:` or `#EXT-X-BYTERANGE:` line, and in
//!   the value of a `BYTERANGE` attribute, no run of more than 15
//!   consecutive digits appears;
//! - no attribute value consists of a single double quote: the line must
//!   not end in a quote separated from a preceding `=` only by padding.
//!
//! Text rejected here is reported as invalid input without being parsed.
//! Anything the parser itself rejects is likewise invalid input, so the
//! guard only moves some rejections earlier; it leaves every other
//! number, URI and attribute — quoted identifiers of any length included
//! — to the parser's own judgement.

use vstd::prelude::*;

verus! {

/// An ASCII decimal digit.
pub open spec fn is_digit(b: u8) -> bool {
    48 <= b <= 57
}

/// A byte that can be part of the padding around an attribute value: the
/// ASCII whitespace bytes and every byte that can occur in the UTF-8
/// encoding of a non-ASCII whitespace character (a deliberate superset).
pub open spec fn is_pad(b: u8) -> bool {
    ||| b == 9
    ||| b == 11
    ||| b == 12
    ||| b == 13
    ||| b == 32
    ||| b == 0xc2
    ||| b == 0xe1
    ||| b == 0xe2
    ||| b == 0xe3
    ||| (0x80 <= b <= 0xbf)
}

/// The length in bytes of the whitespace character starting at `i` in
/// `[.., e)`, or `0` when none starts there: exactly the characters a
/// Unicode trim removes, in their UTF-8 encodings (the line feed is
/// absent only because lines never contain one).
pub open spec fn ws_char_len(t: Seq<u8>, i: int, e: int) -> int {
    if i < 0 || i >= e || e > t.len() {
        0int
    } else if t[i] == 9 || t[i] == 11 || t[i] == 12 || t[i] == 13 || t[i] == 32 {
        1int
    } else if t[i] == 0xc2 && i + 2 <= e && (t[i + 1] == 0x85 || t[i + 1] == 0xa0) {
        2int
    } else if t[i] == 0xe1 && i + 3 <= e && t[i + 1] == 0x9a && t[i + 2] == 0x80 {
        3int
    } else if t[i] == 0xe2 && i + 3 <= e && t[i + 1] == 0x80 && (0x80 <= t[i + 2] <= 0x8a || t[i
        + 2] == 0xa8 || t[i + 2] == 0xa9 || t[i + 2] == 0xaf) {
        3int
    } else if t[i] == 0xe2 && i + 3 <= e && t[i + 1] == 0x81 && t[i + 2] == 0x9f {
        3int
    } else if t[i] == 0xe3 && i + 3 <= e && t[i + 1] == 0x80 && t[i + 2] == 0x80 {
        3int
    } else {
        0int
    }
}

/// The start of the line once its leading whitespace is trimmed.
pub open spec fn trim_start(t: Seq<u8>, i: int, e: int) -> int
    decreases e - i,
{
    let l = ws_char_len(t, i, e);
    if l == 0 {
        i
    } else {
        trim_start(t, i + l, e)
    }
}

/// The end of the trimmed line: the position after the last byte that is
/// not part of a trailing whitespace run, scanning `[i, e)` with `last`
/// the end of the content seen so far.
pub open spec fn trimmed_end_from(t: Seq<u8>, i: int, e: int, last: int) -> int
    decreases e - i,
{
    if i < 0 || i >= e || e > t.len() {
        last
    } else {
        let l = ws_char_len(t, i, e);
        if l > 0 {
            trimmed_end_from(t, i + l, e, last)
        } else {
            trimmed_end_from(t, i + 1, e, i + 1)
        }
    }
}

/// The end of the line that starts at `i`: the index of the first
/// line-feed byte at or after `i`, or the end of the text.
pub open spec fn line_end_from(t: Seq<u8>, i: int) -> int
    decreases t.len() - i,
{
    if i < 0 || i >= t.len() {
        i
    } else if t[i] == 10 {
        i
    } else {
        line_end_from(t, i + 1)
    }
}

/// Whether the trimmed line `[a, e)` starts with `#EXT`.
pub open spec fn ext_prefix(t: Seq<u8>, a: int, e: int) -> bool {
    &&& 0 <= a && a + 4 <= e <= t.len()
    &&& t[a] == 35
    &&& t[a + 1] == 69
    &&& t[a + 2] == 88
    &&& t[a + 3] == 84
}

/// Whether the trimmed line `[a, e)` starts with `#EXTINF:`.
pub open spec fn extinf_prefix(t: Seq<u8>, a: int, e: int) -> bool {
    &&& ext_prefix(t, a, e)
    &&& a + 8 <= e
    &&& t[a + 4] == 73
    &&& t[a + 5] == 78
    &&& t[a + 6] == 70
    &&& t[a + 7] == 58
}

/// Whether the trimmed line `[a, e)` starts with `#EXT-X-DATERANGE:`.
pub open spec fn daterange_prefix(t: Seq<u8>, a: int, e: int) -> bool {
    &&& ext_prefix(t, a, e)
    &&& a + 17 <= e
    &&& t[a + 4] == 45
    &&& t[a + 5] == 88
    &&& t[a + 6] == 45
    &&& t[a + 7] == 68
    &&& t[a + 8] == 65
    &&& t[a + 9] == 84
    &&& t[a + 10] == 69
    &&& t[a + 11] == 82
    &&& t[a + 12] == 65
    &&& t[a + 13] == 78
    &&& t[a + 14] == 71
    &&& t[a + 15] == 69
    &&& t[a + 16] == 58
}

/// Whether the trimmed line `[a, e)` starts with `#EXT-X-BYTERANGE:`.
pub open spec fn byterange_prefix(t: Seq<u8>, a: int, e: int) -> bool {
    &&& ext_prefix(t, a, e)
    &&& a + 17 <= e
    &&& t[a + 4] == 45
    &&& t[a + 5] == 88
    &&& t[a + 6] == 45
    &&& t[a + 7] == 66
    &&& t[a + 8] == 89
    &&& t[a + 9] == 84
    &&& t[a + 10] == 69
    &&& t[a + 11] == 82
    &&& t[a + 12] == 65
    &&& t[a + 13] == 78
    &&& t[a + 14] == 71
    &&& t[a + 15] == 69
    &&& t[a + 16] == 58
}

/// Whether the trimmed line `[a, e)` starts with
/// `#EXT-X-MEDIA-SEQUENCE:`.
pub open spec fn media_sequence_prefix(t: Seq<u8>, a: int, e: int) -> bool {
    &&& ext_prefix(t, a, e)
    &&& a + 22 <= e
    &&& t[a + 4] == 45
    &&& t[a + 5] == 88
    &&& t[a + 6] == 45
    &&& t[a + 7] == 77
    &&& t[a + 8] == 69
    &&& t[a + 9] == 68
    &&& t[a + 10] == 73
    &&& t[a + 11] == 65
    &&& t[a + 12] == 45
    &&& t[a + 13] == 83
    &&& t[a + 14] == 69
    &&& t[a + 15] == 81
    &&& t[a + 16] == 85
    &&& t[a + 17] == 69
    &&& t[a + 18] == 78
    &&& t[a + 19] == 67
    &&& t[a + 20] == 69
    &&& t[a + 21] == 58
}

/// Whether the word `DURATION` stands at `i` (within `[.., e)`).
pub open spec fn duration_word_at(t: Seq<u8>, i: int, e: int) -> bool {
    &&& 0 <= i && i + 8 <= e <= t.len()
    &&& t[i] == 68
    &&& t[i + 1] == 85
    &&& t[i + 2] == 82
    &&& t[i + 3] == 65
    &&& t[i + 4] == 84
    &&& t[i + 5] == 73
    &&& t[i + 6] == 79
    &&& t[i + 7] == 78
}

/// Whether the word `BYTERANGE` stands at `i` (within `[.., e)`).
pub open spec fn byterange_word_at(t: Seq<u8>, i: int, e: int) -> bool {
    &&& 0 <= i && i + 9 <= e <= t.len()
    &&& t[i] == 66
    &&& t[i + 1] == 89
    &&& t[i + 2] == 84
    &&& t[i + 3] == 69
    &&& t[i + 4] == 82
    &&& t[i + 5] == 65
    &&& t[i + 6] == 78
    &&& t[i + 7] == 71
    &&& t[i + 8] == 69
}

/// No run of more than 15 consecutive digits in `[i, e)`, with `run`
/// digits already seen immediately before `i`.
pub open spec fn digit_runs_bounded(t: Seq<u8>, i: int, e: int, run: int) -> bool
    decreases e - i,
{
    if i < 0 || i >= e || e > t.len() {
        true
    } else if is_digit(t[i]) {
        run + 1 <= 15 && digit_runs_bounded(t, i + 1, e, run + 1)
    } else {
        digit_runs_bounded(t, i + 1, e, 0)
    }
}

/// Only padding up to the next comma (or the end of the span): the
/// trailing whitespace an attribute-value trim removes.
pub open spec fn pads_to_term(t: Seq<u8>, i: int, e: int) -> bool
    decreases e - i,
{
    if i < 0 || i >= e || e > t.len() {
        true
    } else if t[i] == 44 {
        true
    } else if is_pad(t[i]) {
        pads_to_term(t, i + 1, e)
    } else {
        false
    }
}

/// The integer part of a plain decimal number from `i` on, with `count`
/// digits seen so far (at most 19 allowed — every value below 2^64
/// seconds), ending at a comma, a carriage return, trailing padding, the
/// end of the span, or a dot followed by a fractional part.
pub open spec fn num_int_part(t: Seq<u8>, i: int, e: int, count: int) -> bool
    decreases e - i,
{
    if count > 19 {
        false
    } else if i < 0 || i >= e || e > t.len() {
        true
    } else if t[i] == 44 || t[i] == 13 {
        true
    } else if is_digit(t[i]) {
        num_int_part(t, i + 1, e, count + 1)
    } else if t[i] == 46 {
        num_frac_part(t, i + 1, e)
    } else if is_pad(t[i]) {
        pads_to_term(t, i + 1, e)
    } else {
        false
    }
}

/// The fractional part of a plain decimal number: digits of any count,
/// ending at a comma, a carriage return, trailing padding, or the end of
/// the span.
pub open spec fn num_frac_part(t: Seq<u8>, i: int, e: int) -> bool
    decreases e - i,
{
    if i < 0 || i >= e || e > t.len() {
        true
    } else if t[i] == 44 || t[i] == 13 {
        true
    } else if is_digit(t[i]) {
        num_frac_part(t, i + 1, e)
    } else if is_pad(t[i]) {
        pads_to_term(t, i + 1, e)
    } else {
        false
    }
}

/// A plain non-negative decimal number stands at `i`: a digit first,
/// then at most 18 more integer digits, an optional dot and fractional
/// digits, up to a comma, a carriage return, trailing padding, or the
/// end of the span.
pub open spec fn num_token_ok(t: Seq<u8>, i: int, e: int) -> bool {
    &&& 0 <= i < e <= t.len()
    &&& is_digit(t[i])
    &&& num_int_part(t, i + 1, e, 1)
}

/// The index of the last non-padding byte of `[a, e)`, or `a - 1` when
/// the whole range is padding.
pub open spec fn last_non_pad(t: Seq<u8>, a: int, e: int) -> int
    decreases e - a,
{
    if e <= a || a < 0 || e > t.len() {
        a - 1
    } else if is_pad(t[e - 1]) {
        last_non_pad(t, a, e - 1)
    } else {
        e - 1
    }
}

/// The line ends in a double quote separated from a preceding `=` only
/// by padding: the shape under which the delegated parser would see an
/// attribute value consisting of a single quote.
pub open spec fn lone_quote_tail(t: Seq<u8>, a: int, e: int) -> bool {
    let q = last_non_pad(t, a, e);
    &&& q >= a
    &&& t[q] == 34
    &&& {
        let p = last_non_pad(t, a, q);
        p >= a && t[p] == 61
    }
}

/// The index of the first non-padding byte of `[i, e)`, or `e` when the
/// whole range is padding.
pub open spec fn first_non_pad(t: Seq<u8>, i: int, e: int) -> int
    decreases e - i,
{
    if i < 0 || i >= e || e > t.len() {
        e
    } else if is_pad(t[i]) {
        first_non_pad(t, i + 1, e)
    } else {
        i
    }
}

/// Whether an attribute key can start at `i`: the last non-padding byte
/// before it (within the line starting at `a`) is a comma or the tag's
/// colon.
pub open spec fn attr_key_start(t: Seq<u8>, a: int, i: int) -> bool {
    let p = last_non_pad(t, a, i);
    p >= a && (t[p] == 44 || t[p] == 58)
}

/// Whether the eight bytes `PLANNED-` stand at `i` (within `[.., e)`).
pub open spec fn planned_word_at(t: Seq<u8>, i: int, e: int) -> bool {
    &&& 0 <= i && i + 8 <= e <= t.len()
    &&& t[i] == 80
    &&& t[i + 1] == 76
    &&& t[i + 2] == 65
    &&& t[i + 3] == 78
    &&& t[i + 4] == 78
    &&& t[i + 5] == 69
    &&& t[i + 6] == 68
    &&& t[i + 7] == 45
}

/// The word `DURATION` at `i` is a real duration attribute key of the
/// line starting at `a`: it stands at a key position itself, or
/// completes `PLANNED-DURATION` from one.
pub open spec fn duration_key_at(t: Seq<u8>, a: int, i: int, e: int) -> bool {
    &&& duration_word_at(t, i, e)
    &&& (attr_key_start(t, a, i) || (planned_word_at(t, i - 8, e) && attr_key_start(
        t,
        a,
        i - 8,
    )))
}

/// Every `DURATION` or `PLANNED-DURATION` attribute in `[i, e)` carries
/// a plain decimal number: wherever such a key is followed (through
/// padding) by `=`, a [`num_token_ok`] number follows the `=` (after the
/// leading padding a value trim removes).
pub open spec fn durations_ok(t: Seq<u8>, a: int, i: int, e: int) -> bool
    decreases e - i,
{
    if i < 0 || i + 8 > e || e > t.len() {
        true
    } else {
        let ok_here = duration_key_at(t, a, i, e) ==> {
            let j = first_non_pad(t, i + 8, e);
            (j < e && t[j] == 61) ==> num_token_ok(t, first_non_pad(t, j + 1, e), e)
        };
        ok_here && durations_ok(t, a, i + 1, e)
    }
}

/// Every `BYTERANGE` attribute value in `[i, e)` keeps its digit runs
/// within 15 digits: wherever the word `BYTERANGE` stands at a key
/// position of the line starting at `a` and is followed (through
/// padding) by `=`, the value obeys [`digit_runs_bounded`].
pub open spec fn byteranges_ok(t: Seq<u8>, a: int, i: int, e: int) -> bool
    decreases e - i,
{
    if i < 0 || i + 9 > e || e > t.len() {
        true
    } else {
        let ok_here = (byterange_word_at(t, i, e) && attr_key_start(t, a, i)) ==> {
            let j = first_non_pad(t, i + 9, e);
            (j < e && t[j] == 61) ==> digit_runs_bounded(t, j + 1, e, 0)
        };
        ok_here && byteranges_ok(t, a, i + 1, e)
    }
}

/// The raw line `[a_raw, e_raw)` is safe to hand to the delegated
/// parser, judged over the trimmed span the parser actually dispatches
/// on.
pub open spec fn safe_line(t: Seq<u8>, a_raw: int, e_raw: int) -> bool {
    let a = trim_start(t, a_raw, e_raw);
    let e = trimmed_end_from(t, a, e_raw, a);
    ext_prefix(t, a, e) ==> {
        &&& !lone_quote_tail(t, a, e)
        &&& (extinf_prefix(t, a, e) ==> num_token_ok(t, a + 8, e))
        &&& (daterange_prefix(t, a, e) ==> durations_ok(t, a, a, e))
        &&& (media_sequence_prefix(t, a, e) ==> digit_runs_bounded(t, a, e, 0))
        &&& (byterange_prefix(t, a, e) ==> digit_runs_bounded(t, a, e, 0))
        &&& byteranges_ok(t, a, a, e)
    }
}

/// Every line from `i` on is safe. (The measure guard `next` is only for
/// the termination argument; `line_end_from(t, i)` never lies below `i`.)
pub open spec fn safe_lines_from(t: Seq<u8>, i: int) -> bool
    decreases t.len() - i,
{
    if i < 0 || i >= t.len() {
        true
    } else {
        let e = line_end_from(t, i);
        let next = if e < i {
            i + 1
        } else if e >= t.len() {
            t.len() as int
        } else {
            e + 1
        };
        safe_line(t, i, e) && safe_lines_from(t, next)
    }
}

/// The safe domain of the delegated playlist parser: every line of the
/// text is safe in the sense of [`safe_line`].
pub open spec fn playlist_text_safe(t: Seq<u8>) -> bool {
    safe_lines_from(t, 0)
}

/// Whether `b` is a padding byte (see [`is_pad`]).
fn pad_byte(b: u8) -> (r: bool)
    ensures
        r == is_pad(b),
{
    b == 9 || b == 11 || b == 12 || b == 13 || b == 32 || b == 0xc2 || b == 0xe1 || b == 0xe2
        || b == 0xe3 || (0x80 <= b && b <= 0xbf)
}

/// The byte length of the whitespace character at `i`, or `0`.
fn ws_len(text: &[u8], i: usize, e: usize) -> (l: usize)
    requires
        e <= text@.len(),
    ensures
        l == ws_char_len(text@, i as int, e as int),
        l <= 3,
        i < e ==> i + l <= e,
        i >= e ==> l == 0,
{
    if i >= e {
        return 0;
    }
    let b = text[i];
    if b == 9 || b == 11 || b == 12 || b == 13 || b == 32 {
        1
    } else if b == 0xc2 && e - i >= 2 && (text[i + 1] == 0x85 || text[i + 1] == 0xa0) {
        2
    } else if b == 0xe1 && e - i >= 3 && text[i + 1] == 0x9a && text[i + 2] == 0x80 {
        3
    } else if b == 0xe2 && e - i >= 3 && text[i + 1] == 0x80 && (0x80 <= text[i + 2] && text[i
        + 2] <= 0x8a || text[i + 2] == 0xa8 || text[i + 2] == 0xa9 || text[i + 2] == 0xaf) {
        3
    } else if b == 0xe2 && e - i >= 3 && text[i + 1] == 0x81 && text[i + 2] == 0x9f {
        3
    } else if b == 0xe3 && e - i >= 3 && text[i + 1] == 0x80 && text[i + 2] == 0x80 {
        3
    } else {
        0
    }
}

/// The trimmed start of `[a, e)`.
fn find_trim_start(text: &[u8], a: usize, e: usize) -> (r: usize)
    requires
        a <= e <= text@.len(),
    ensures
        r == trim_start(text@, a as int, e as int),
        a <= r <= e,
{
    let mut j = a;
    loop
        invariant
            a <= j <= e <= text@.len(),
            trim_start(text@, a as int, e as int) == trim_start(text@, j as int, e as int),
        decreases e - j,
    {
        let l = ws_len(text, j, e);
        if l == 0 {
            proof {
                assert(trim_start(text@, j as int, e as int) == j);
            }
            return j;
        }
        j = j + l;
    }
}

/// The trimmed end of `[a, e)`.
fn find_trimmed_end(text: &[u8], a: usize, e: usize) -> (r: usize)
    requires
        a <= e <= text@.len(),
    ensures
        r == trimmed_end_from(text@, a as int, e as int, a as int),
        a <= r <= e,
{
    let mut j = a;
    let mut last = a;
    while j < e
        invariant
            a <= j <= e <= text@.len(),
            a <= last <= j,
            trimmed_end_from(text@, a as int, e as int, a as int) == trimmed_end_from(
                text@,
                j as int,
                e as int,
                last as int,
            ),
        decreases e - j,
    {
        let l = ws_len(text, j, e);
        if l == 0 {
            j = j + 1;
            last = j;
        } else {
            j = j + l;
        }
    }
    last
}

/// The index of the first line feed at or after `i`, or the text's end.
fn find_line_end(text: &[u8], i: usize) -> (e: usize)
    requires
        i <= text@.len(),
    ensures
        e == line_end_from(text@, i as int),
        i <= e <= text@.len(),
{
    let n = text.len();
    let mut j = i;
    while j < n
        invariant
            i <= j <= n,
            n == text@.len(),
            line_end_from(text@, i as int) == line_end_from(text@, j as int),
        decreases n - j,
    {
        if text[j] == 10 {
            return j;
        }
        j = j + 1;
    }
    j
}

/// Decides [`digit_runs_bounded`] over `[a, e)`.
fn check_digit_runs(text: &[u8], a: usize, e: usize) -> (r: bool)
    requires
        a <= e <= text@.len(),
    ensures
        r == digit_runs_bounded(text@, a as int, e as int, 0),
{
    let mut i = a;
    let mut run: u32 = 0;
    while i < e
        invariant
            a <= i <= e <= text@.len(),
            run <= 15,
            digit_runs_bounded(text@, a as int, e as int, 0) == digit_runs_bounded(
                text@,
                i as int,
                e as int,
                run as int,
            ),
        decreases e - i,
    {
        let b = text[i];
        if 48 <= b && b <= 57 {
            if run >= 15 {
                return false;
            }
            run = run + 1;
        } else {
            run = 0;
        }
        i = i + 1;
    }
    true
}

/// Decides [`num_token_ok`] at `i` within `[.., e)`.
fn check_num_token(text: &[u8], i: usize, e: usize) -> (r: bool)
    requires
        e <= text@.len(),
    ensures
        r == num_token_ok(text@, i as int, e as int),
{
    if i >= e {
        return false;
    }
    let b = text[i];
    if !(48 <= b && b <= 57) {
        return false;
    }
    let mut j = i + 1;
    let mut count: u32 = 1;
    while j < e
        invariant
            i + 1 <= j <= e <= text@.len(),
            1 <= count <= 19,
            is_digit(text@[i as int]),
            num_int_part(text@, i + 1, e as int, 1) == num_int_part(
                text@,
                j as int,
                e as int,
                count as int,
            ),
        decreases e - j,
    {
        let b = text[j];
        if b == 44 || b == 13 {
            proof {
                assert(num_int_part(text@, j as int, e as int, count as int));
            }
            return true;
        } else if 48 <= b && b <= 57 {
            if count >= 19 {
                proof {
                    assert(num_int_part(text@, j as int, e as int, count as int)
                        == num_int_part(text@, j + 1, e as int, count + 1));
                    assert(!num_int_part(text@, j + 1, e as int, count + 1));
                }
                return false;
            }
            count = count + 1;
        } else if b == 46 {
            proof {
                assert(num_int_part(text@, j as int, e as int, count as int) == num_frac_part(
                    text@,
                    j + 1,
                    e as int,
                ));
            }
            let mut k = j + 1;
            while k < e
                invariant
                    j + 1 <= k <= e <= text@.len(),
                    i < e,
                    is_digit(text@[i as int]),
                    num_int_part(text@, i + 1, e as int, 1) == num_frac_part(
                        text@,
                        k as int,
                        e as int,
                    ),
                decreases e - k,
            {
                let b = text[k];
                if b == 44 || b == 13 {
                    proof {
                        assert(num_frac_part(text@, k as int, e as int));
                    }
                    return true;
                } else if 48 <= b && b <= 57 {
                } else if pad_byte(b) {
                    proof {
                        assert(num_frac_part(text@, k as int, e as int) == pads_to_term(
                            text@,
                            k + 1,
                            e as int,
                        ));
                    }
                    return check_pads_to_term(text, k + 1, e);
                } else {
                    return false;
                }
                k = k + 1;
            }
            return true;
        } else if pad_byte(b) {
            proof {
                assert(num_int_part(text@, j as int, e as int, count as int) == pads_to_term(
                    text@,
                    j + 1,
                    e as int,
                ));
            }
            return check_pads_to_term(text, j + 1, e);
        } else {
            return false;
        }
        j = j + 1;
    }
    true
}

/// Decides [`pads_to_term`] over `[i, e)`.
fn check_pads_to_term(text: &[u8], i: usize, e: usize) -> (r: bool)
    requires
        i <= e <= text@.len(),
    ensures
        r == pads_to_term(text@, i as int, e as int),
{
    let mut j = i;
    while j < e
        invariant
            i <= j <= e <= text@.len(),
            pads_to_term(text@, i as int, e as int) == pads_to_term(text@, j as int, e as int),
        decreases e - j,
    {
        let b = text[j];
        if b == 44 {
            return true;
        }
        if !pad_byte(b) {
            return false;
        }
        j = j + 1;
    }
    true
}

/// The index of the last non-padding byte of `[a, e)`, if any.
fn find_last_non_pad(text: &[u8], a: usize, e: usize) -> (r: Option<usize>)
    requires
        a <= e <= text@.len(),
    ensures
        match r {
            Option::None => last_non_pad(text@, a as int, e as int) < a,
            Option::Some(q) => a <= q < e && q == last_non_pad(text@, a as int, e as int),
        },
{
    let mut j = e;
    while j > a
        invariant
            a <= j <= e <= text@.len(),
            last_non_pad(text@, a as int, e as int) == last_non_pad(text@, a as int, j as int),
        decreases j,
    {
        if !pad_byte(text[j - 1]) {
            return Some(j - 1);
        }
        j = j - 1;
    }
    None
}

/// Decides [`lone_quote_tail`] over `[a, e)`.
fn check_lone_quote(text: &[u8], a: usize, e: usize) -> (r: bool)
    requires
        a <= e <= text@.len(),
    ensures
        r == lone_quote_tail(text@, a as int, e as int),
{
    match find_last_non_pad(text, a, e) {
        Option::None => false,
        Option::Some(q) => {
            if text[q] != 34 {
                return false;
            }
            match find_last_non_pad(text, a, q) {
                Option::None => false,
                Option::Some(p) => text[p] == 61,
            }
        },
    }
}

/// The index of the first non-padding byte of `[i, e)`, or `e`.
fn find_first_non_pad(text: &[u8], i: usize, e: usize) -> (r: usize)
    requires
        i <= e <= text@.len(),
    ensures
        r == first_non_pad(text@, i as int, e as int),
        i <= r <= e,
{
    let mut j = i;
    while j < e
        invariant
            i <= j <= e <= text@.len(),
            first_non_pad(text@, i as int, e as int) == first_non_pad(text@, j as int, e as int),
        decreases e - j,
    {
        if !pad_byte(text[j]) {
            return j;
        }
        j = j + 1;
    }
    j
}

/// Whether an attribute key can start at `i` of the line starting at
/// `a` (see [`attr_key_start`]).
fn check_attr_key_start(text: &[u8], a: usize, i: usize) -> (r: bool)
    requires
        a <= i <= text@.len(),
    ensures
        r == attr_key_start(text@, a as int, i as int),
{
    match find_last_non_pad(text, a, i) {
        Option::None => false,
        Option::Some(p) => text[p] == 44 || text[p] == 58,
    }
}

/// Decides [`durations_ok`] over the line `[a, e)`.
fn check_durations(text: &[u8], a: usize, e: usize) -> (r: bool)
    requires
        a <= e <= text@.len(),
    ensures
        r == durations_ok(text@, a as int, a as int, e as int),
{
    let mut i = a;
    while e - i >= 8
        invariant
            a <= i <= e <= text@.len(),
            durations_ok(text@, a as int, a as int, e as int) == durations_ok(
                text@,
                a as int,
                i as int,
                e as int,
            ),
        decreases e - i,
    {
        let word_here = text[i] == 68 && text[i + 1] == 85 && text[i + 2] == 82 && text[i + 3]
            == 65 && text[i + 4] == 84 && text[i + 5] == 73 && text[i + 6] == 79 && text[i + 7]
            == 78;
        if word_here {
            let anchored = if check_attr_key_start(text, a, i) {
                true
            } else if i - a >= 8 && text[i - 8] == 80 && text[i - 7] == 76 && text[i - 6] == 65
                && text[i - 5] == 78 && text[i - 4] == 78 && text[i - 3] == 69 && text[i - 2]
                == 68 && text[i - 1] == 45 {
                check_attr_key_start(text, a, i - 8)
            } else {
                false
            };
            if anchored {
                let j = find_first_non_pad(text, i + 8, e);
                if j < e && text[j] == 61 {
                    let v = find_first_non_pad(text, j + 1, e);
                    if !check_num_token(text, v, e) {
                        return false;
                    }
                }
            }
        }
        i = i + 1;
    }
    true
}

/// Decides [`byteranges_ok`] over the line `[a, e)`.
fn check_byteranges(text: &[u8], a: usize, e: usize) -> (r: bool)
    requires
        a <= e <= text@.len(),
    ensures
        r == byteranges_ok(text@, a as int, a as int, e as int),
{
    let mut i = a;
    while e - i >= 9
        invariant
            a <= i <= e <= text@.len(),
            byteranges_ok(text@, a as int, a as int, e as int) == byteranges_ok(
                text@,
                a as int,
                i as int,
                e as int,
            ),
        decreases e - i,
    {
        let word_here = text[i] == 66 && text[i + 1] == 89 && text[i + 2] == 84 && text[i + 3]
            == 69 && text[i + 4] == 82 && text[i + 5] == 65 && text[i + 6] == 78 && text[i + 7]
            == 71 && text[i + 8] == 69;
        if word_here && check_attr_key_start(text, a, i) {
            let j = find_first_non_pad(text, i + 9, e);
            if j < e && text[j] == 61 {
                if !check_digit_runs(text, j + 1, e) {
                    return false;
                }
            }
        }
        i = i + 1;
    }
    true
}

/// Decides [`safe_line`] over the raw line `[a_raw, e_raw)`.
fn check_line(text: &[u8], a_raw: usize, e_raw: usize) -> (r: bool)
    requires
        a_raw <= e_raw <= text@.len(),
    ensures
        r == safe_line(text@, a_raw as int, e_raw as int),
{
    let a = find_trim_start(text, a_raw, e_raw);
    let e = find_trimmed_end(text, a, e_raw);
    if !(e - a >= 4 && text[a] == 35 && text[a + 1] == 69 && text[a + 2] == 88 && text[a + 3]
        == 84) {
        return true;
    }
    if check_lone_quote(text, a, e) {
        return false;
    }
    if e - a >= 8 && text[a + 4] == 73 && text[a + 5] == 78 && text[a + 6] == 70 && text[a + 7]
        == 58 {
        if !check_num_token(text, a + 8, e) {
            return false;
        }
    }
    if e - a >= 17 && text[a + 4] == 45 && text[a + 5] == 88 && text[a + 6] == 45 && text[a + 7]
        == 68 && text[a + 8] == 65 && text[a + 9] == 84 && text[a + 10] == 69 && text[a + 11]
        == 82 && text[a + 12] == 65 && text[a + 13] == 78 && text[a + 14] == 71 && text[a + 15]
        == 69 && text[a + 16] == 58 {
        if !check_durations(text, a, e) {
            return false;
        }
    }
    if e - a >= 17 && text[a + 4] == 45 && text[a + 5] == 88 && text[a + 6] == 45 && text[a + 7]
        == 66 && text[a + 8] == 89 && text[a + 9] == 84 && text[a + 10] == 69 && text[a + 11]
        == 82 && text[a + 12] == 65 && text[a + 13] == 78 && text[a + 14] == 71 && text[a + 15]
        == 69 && text[a + 16] == 58 {
        if !check_digit_runs(text, a, e) {
            return false;
        }
    }
    if e - a >= 22 && text[a + 4] == 45 && text[a + 5] == 88 && text[a + 6] == 45 && text[a + 7]
        == 77 && text[a + 8] == 69 && text[a + 9] == 68 && text[a + 10] == 73 && text[a + 11]
        == 65 && text[a + 12] == 45 && text[a + 13] == 83 && text[a + 14] == 69 && text[a + 15]
        == 81 && text[a + 16] == 85 && text[a + 17] == 69 && text[a + 18] == 78 && text[a + 19]
        == 67 && text[a + 20] == 69 && text[a + 21] == 58 {
        if !check_digit_runs(text, a, e) {
            return false;
        }
    }
    if !check_byteranges(text, a, e) {
        return false;
    }
    true
}

/// Decides [`playlist_text_safe`]: scans the text line by line.
pub fn playlist_text_guarded(text: &[u8]) -> (r: bool)
    ensures
        r == playlist_text_safe(text@),
{
    let n = text.len();
    let mut i: usize = 0;
    while i < n
        invariant
            i <= n,
            n == text@.len(),
            playlist_text_safe(text@) == safe_lines_from(text@, i as int),
        decreases n - i,
    {
        let e = find_line_end(text, i);
        if !check_line(text, i, e) {
            proof {
                assert(!safe_lines_from(text@, i as int));
            }
            return false;
        }
        if e >= n {
            proof {
                assert(safe_lines_from(text@, n as int));
                assert(safe_lines_from(text@, i as int));
            }
            return true;
        }
        proof {
            assert(safe_lines_from(text@, i as int) == safe_lines_from(text@, e + 1));
        }
        i = e + 1;
    }
    true
}

} // verus!
