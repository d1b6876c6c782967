//! Parsing of decimal integers from text, with the semantics of the
//! standard signed 32-bit parse: an optional sign, one or more ASCII
//! digits, nothing else, and the value within range.

use vstd::prelude::*;

verus! {

/// Whether `c` is an ASCII decimal digit.
pub open spec fn is_digit(c: char) -> bool {
    '0' <= c && c <= '9'
}

/// The value of one ASCII decimal digit.
pub open spec fn digit_val(c: char) -> nat {
    (c as nat - '0' as nat) as nat
}

/// Whether every character of `s` is an ASCII decimal digit.
pub open spec fn all_digits(s: Seq<char>) -> bool {
    forall|i: int| 0 <= i < s.len() ==> is_digit(s[i])
}

/// The value of a sequence of decimal digits, most significant first.
pub open spec fn digits_val(s: Seq<char>) -> nat
    decreases s.len(),
{
    if s.len() == 0 {
        0
    } else {
        digits_val(s.drop_last()) * 10 + digit_val(s.last())
    }
}

/// The signed 32-bit integer spelled by `s`: an optional `'+'` or `'-'`,
/// then one or more digits and nothing else, with the magnitude within
/// the type's range; anything else parses to nothing.
pub open spec fn spec_parse_i32(s: Seq<char>) -> Option<i32> {
    let signed = s.len() > 0 && (s[0] == '+' || s[0] == '-');
    let neg = s.len() > 0 && s[0] == '-';
    let mag = if signed {
        s.skip(1)
    } else {
        s
    };
    if mag.len() == 0 || !all_digits(mag) {
        None
    } else if neg {
        if digits_val(mag) <= i32::MAX as nat + 1 {
            Some((-(digits_val(mag) as int)) as i32)
        } else {
            None
        }
    } else {
        if digits_val(mag) <= i32::MAX as nat {
            Some(digits_val(mag) as i32)
        } else {
            None
        }
    }
}

/// A digit run is worth at least any of its prefixes: appending digits
/// never shrinks the value.
proof fn lemma_digits_val_prefix_le(s: Seq<char>, j: int)
    requires
        0 <= j <= s.len(),
    ensures
        digits_val(s.take(j)) <= digits_val(s),
    decreases s.len() - j,
{
    if j < s.len() {
        assert(s.take(j + 1).drop_last() =~= s.take(j));
        assert(s.take(j + 1).last() == s[j]);
        lemma_digits_val_prefix_le(s, j + 1);
        assert(s.take(s.len() as int) =~= s);
    } else {
        assert(s.take(j) =~= s);
    }
}

/// Parse a signed 32-bit integer from text: an optional sign, one or
/// more ASCII digits, nothing else, and the value in range — exactly the
/// strings that [`spec_parse_i32`] accepts, with that value.
pub fn parse_i32(s: &str) -> (r: Option<i32>)
    ensures
        r == spec_parse_i32(s@),
{
    let len = s.unicode_len();
    if len == 0 {
        return None;
    }
    let first = s.get_char(0);
    let signed = first == '+' || first == '-';
    let neg = first == '-';
    let start: usize = if signed {
        1
    } else {
        0
    };
    let ghost mag = if signed {
        s@.skip(1)
    } else {
        s@
    };
    proof {
        assert(mag.len() == len - start);
    }
    if start == len {
        return None;
    }
    // the magnitude fits the signed range as long as the accumulator
    // never leaves it; one digit past it decides the result either way
    let bound: u64 = (i32::MAX as u64) + 1;
    let mut acc: u64 = 0;
    let mut i: usize = start;
    while i < len
        invariant
            start <= i <= len,
            1 <= len == s@.len(),
            signed == (s@[0] == '+' || s@[0] == '-'),
            neg == (s@[0] == '-'),
            start == (if signed {
                1int
            } else {
                0int
            }),
            mag == (if signed {
                s@.skip(1)
            } else {
                s@
            }),
            mag.len() == len - start,
            forall|j: int| 0 <= j < i - start ==> is_digit(mag[j]),
            acc == digits_val(mag.take(i - start)),
            acc <= i32::MAX as u64 + 1,
            bound == i32::MAX as u64 + 1,
        decreases len - i,
    {
        let c = s.get_char(i);
        proof {
            assert(mag[i - start] == s@[i as int]);
        }
        if !(c >= '0' && c <= '9') {
            proof {
                assert(!is_digit(mag[i - start]));
                assert(!all_digits(mag));
            }
            return None;
        }
        let d = (c as u32 - '0' as u32) as u64;
        proof {
            assert(mag.take(i - start + 1).drop_last() =~= mag.take(i - start));
            assert(mag.take(i - start + 1).last() == mag[i - start]);
        }
        let next = acc * 10 + d;
        if next > bound {
            // the digits read so far already overflow the range, and
            // further digits only grow the value
            proof {
                assert(digit_val(mag[i - start]) == d);
                assert(digits_val(mag.take(i - start + 1)) == acc * 10 + d);
                if all_digits(mag) {
                    lemma_digits_val_prefix_le(mag, i - start + 1);
                    assert(digits_val(mag) > i32::MAX as nat + 1);
                }
            }
            return None;
        }
        acc = next;
        i += 1;
    }
    proof {
        assert(mag.take(len - start) =~= mag);
    }
    if neg {
        if acc == bound {
            Some(i32::MIN)
        } else {
            Some(-(acc as i32))
        }
    } else {
        if acc <= i32::MAX as u64 {
            Some(acc as i32)
        } else {
            None
        }
    }
}

} // verus!
