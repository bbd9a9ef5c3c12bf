//! Parsing the hexadecimal endpoint identifier out of a URL path segment:
//! an optional leading `+`, then at least one hexadecimal digit, value
//! within a caller-given bound — the inputs `u16::from_str_radix` and
//! `u64::from_str_radix` accept with radix 16, bounded.

use vstd::prelude::*;

verus! {

/// ASCII hexadecimal digit.
pub open spec fn is_hex_digit(c: u8) -> bool {
    (48 <= c <= 57) || (97 <= c <= 102) || (65 <= c <= 70)
}

/// Value of one hexadecimal digit.
pub open spec fn hex_digit_val(c: u8) -> int {
    if 48 <= c <= 57 {
        c - 48
    } else if 97 <= c <= 102 {
        c - 87
    } else {
        c - 55
    }
}

/// All bytes are hexadecimal digits.
pub open spec fn all_hex(s: Seq<u8>) -> bool {
    forall|i: int| 0 <= i < s.len() ==> is_hex_digit(s[i])
}

/// Value of a string of hexadecimal digits, most significant first.
pub open spec fn hex_value(s: Seq<u8>) -> int
    decreases s.len(),
{
    if s.len() == 0 {
        0
    } else {
        hex_value(s.drop_last()) * 16 + hex_digit_val(s.last())
    }
}

/// The digits after an optional leading `+`.
pub open spec fn spec_digits(s: Seq<u8>) -> Seq<u8> {
    if s.len() > 0 && s[0] == 43 {
        s.subrange(1, s.len() as int)
    } else {
        s
    }
}

/// What parsing yields: the value of the digits when there is at least one,
/// all bytes are digits, and the value is within `bound`; nothing otherwise.
pub open spec fn spec_parse_hex(s: Seq<u8>, bound: u64) -> Option<u64> {
    let t = spec_digits(s);
    if t.len() > 0 && all_hex(t) && hex_value(t) <= bound {
        Option::Some(hex_value(t) as u64)
    } else {
        Option::None
    }
}

/// A digit string's value is never negative.
pub proof fn lemma_hex_value_nonneg(s: Seq<u8>)
    requires
        all_hex(s),
    ensures
        hex_value(s) >= 0,
    decreases s.len(),
{
    if s.len() > 0 {
        let t = s.drop_last();
        assert(forall|i: int| 0 <= i < t.len() ==> t[i] == s[i]);
        lemma_hex_value_nonneg(t);
    }
}

/// A prefix of a digit string never exceeds the whole string's value.
pub proof fn lemma_hex_value_prefix_le(s: Seq<u8>, i: int)
    requires
        all_hex(s),
        0 <= i <= s.len(),
    ensures
        hex_value(s.subrange(0, i)) <= hex_value(s),
    decreases s.len(),
{
    if i == s.len() {
        assert(s.subrange(0, i) =~= s);
    } else {
        let t = s.drop_last();
        assert(forall|j: int| 0 <= j < t.len() ==> t[j] == s[j]);
        lemma_hex_value_prefix_le(t, i);
        assert(s.subrange(0, i) =~= t.subrange(0, i));
        lemma_hex_value_nonneg(t);
        assert(hex_value(s) == hex_value(t) * 16 + hex_digit_val(s.last()));
        assert(hex_digit_val(s.last()) >= 0);
        assert(hex_value(t) * 16 >= hex_value(t)) by {
            lemma_hex_value_nonneg(t);
        }
    }
}

/// Value of one more digit appended.
proof fn lemma_hex_value_push(s: Seq<u8>, c: u8)
    ensures
        hex_value(s.push(c)) == hex_value(s) * 16 + hex_digit_val(c),
{
    assert(s.push(c).drop_last() =~= s);
    assert(s.push(c).last() == c);
}

/// Parse a hexadecimal numeral of value at most `bound`: an optional
/// leading `+`, then one or more hexadecimal digits.
pub fn parse_hex_bounded(s: &Vec<u8>, bound: u64) -> (r: Option<u64>)
    ensures
        r == spec_parse_hex(s@, bound),
{
    let start: usize = if s.len() > 0 && s[0] == 43 {
        1
    } else {
        0
    };
    let ghost t: Seq<u8> = spec_digits(s@);
    proof {
        assert(t =~= s@.subrange(start as int, s@.len() as int));
    }
    if s.len() == start {
        return None;
    }
    let n: usize = s.len();
    let mut acc: u128 = 0;
    let mut i: usize = start;
    while i < n
        invariant
            start <= i <= n,
            n == s@.len(),
            start <= 1,
            t == spec_digits(s@),
            t == s@.subrange(start as int, n as int),
            t.len() == n - start,
            acc <= bound as u128,
            all_hex(t.subrange(0, i - start)),
            acc as int == hex_value(t.subrange(0, i - start)),
            forall|j: int| 0 <= j < t.len() ==> t[j] == s@[start + j],
        decreases n - i,
    {
        let c: u8 = s[i];
        let d: u8 = if 48 <= c && c <= 57 {
            c - 48
        } else if 97 <= c && c <= 102 {
            c - 87
        } else if 65 <= c && c <= 70 {
            c - 55
        } else {
            proof {
                assert(t[i - start] == c);
                assert(!is_hex_digit(c));
                assert(!all_hex(t));
            }
            return None;
        };
        proof {
            assert(t[i - start] == c);
            assert(is_hex_digit(c));
            assert(hex_digit_val(c) == d as int);
        }
        let next: u128 = acc * 16 + d as u128;
        proof {
            assert(t.subrange(0, i - start).push(c) =~= t.subrange(0, i + 1 - start));
            lemma_hex_value_push(t.subrange(0, i - start), c);
            assert(all_hex(t.subrange(0, i + 1 - start)));
        }
        if next > bound as u128 {
            proof {
                if all_hex(t) {
                    lemma_hex_value_prefix_le(t, i + 1 - start);
                    assert(hex_value(t) > bound);
                }
            }
            return None;
        }
        acc = next;
        i = i + 1;
    }
    proof {
        assert(t.subrange(0, n - start) =~= t);
    }
    Some(acc as u64)
}

} // verus!
