//! Small text-building utilities: appending one character to an owned
//! string, and formatting an unsigned integer in decimal.

use vstd::prelude::*;

verus! {

/// Relies on `String::push`: appends exactly the one character `c`.
#[verifier::external_body]
pub(crate) fn push_char(s: &mut String, c: char)
    ensures
        final(s)@ == old(s)@.push(c),
{
    s.push(c)
}

/// The decimal digit character for a value below ten.
pub open spec fn spec_decimal_digit(n: int) -> char {
    ((48 + n) as u8) as char
}

/// The decimal numeral of `n`, most significant digit first, with no
/// leading zeros (the numeral of zero is `"0"`).
pub open spec fn spec_decimal(n: int) -> Seq<char>
    decreases n,
{
    if n < 10 {
        seq![spec_decimal_digit(n)]
    } else {
        spec_decimal(n / 10).push(spec_decimal_digit(n % 10))
    }
}

/// Appends the decimal numeral of `n` to `out`.
pub fn push_u64_decimal(out: &mut String, n: u64)
    ensures
        final(out)@ == old(out)@ + spec_decimal(n as int),
    decreases n,
{
    if n >= 10 {
        push_u64_decimal(out, n / 10);
    }
    let d = (n % 10) as u8;
    push_char(out, (48 + d) as char);
    proof {
        assert(out@ =~= old(out)@ + spec_decimal(n as int));
    }
}

/// Whether `t` occurs in `s` starting at position `i`.
pub open spec fn has_substring_at(s: Seq<char>, t: Seq<char>, i: int) -> bool {
    0 <= i && i + t.len() <= s.len() && s.subrange(i, i + t.len()) == t
}

/// Whether `t` occurs anywhere in `s`.
pub open spec fn contains_seq(s: Seq<char>, t: Seq<char>) -> bool {
    exists|i: int| has_substring_at(s, t, i)
}

/// Whether `needle` occurs in `haystack`.
pub fn contains_str(haystack: &str, needle: &str) -> (r: bool)
    ensures
        r == contains_seq(haystack@, needle@),
{
    let n = haystack.unicode_len();
    let m = needle.unicode_len();
    if m > n {
        proof {
            assert(forall|i: int| !has_substring_at(haystack@, needle@, i));
        }
        return false;
    }
    if m == 0 {
        proof {
            assert(haystack@.subrange(0, 0) =~= needle@);
            assert(has_substring_at(haystack@, needle@, 0));
        }
        return true;
    }
    let mut i: usize = 0;
    while i <= n - m
        invariant
            n == haystack@.len(),
            m == needle@.len(),
            m <= n,
            i <= n - m + 1,
            1 <= m,
            forall|k: int| 0 <= k < i ==> !has_substring_at(haystack@, needle@, k),
        decreases n - m + 1 - i,
    {
        let mut j: usize = 0;
        let mut matches_here = true;
        while j < m
            invariant
                n == haystack@.len(),
                m == needle@.len(),
                i + m <= n,
                j <= m,
                matches_here ==> forall|k: int| 0 <= k < j ==> haystack@[i + k] == needle@[k],
                !matches_here ==> !has_substring_at(haystack@, needle@, i as int),
            decreases m - j,
        {
            if haystack.get_char(i + j) != needle.get_char(j) {
                matches_here = false;
                proof {
                    assert(haystack@[i + j] != needle@[j as int]);
                    assert(!has_substring_at(haystack@, needle@, i as int)) by {
                        if has_substring_at(haystack@, needle@, i as int) {
                            assert(haystack@.subrange(i as int, i + needle@.len())[
                                j as int
                            ] == needle@[j as int]);
                        }
                    }
                }
                j = m;
            } else {
                j = j + 1;
            }
        }
        if matches_here {
            proof {
                assert(haystack@.subrange(i as int, i + needle@.len()) =~= needle@);
                assert(has_substring_at(haystack@, needle@, i as int));
            }
            return true;
        }
        proof {
            assert(!has_substring_at(haystack@, needle@, i as int));
        }
        i = i + 1;
    }
    proof {
        assert(forall|k: int| i <= k ==> !has_substring_at(haystack@, needle@, k));
    }
    false
}

} // verus!
