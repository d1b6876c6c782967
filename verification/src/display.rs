//! Rendering of the focus-session display text: decimal digits, two-digit
//! zero padding, and the `" MM:SS "` form derived from an elapsed time.

use vstd::prelude::*;

verus! {

/// The character for one decimal digit.
pub open spec fn spec_digit_char(d: nat) -> char {
    if d == 0 {
        '0'
    } else if d == 1 {
        '1'
    } else if d == 2 {
        '2'
    } else if d == 3 {
        '3'
    } else if d == 4 {
        '4'
    } else if d == 5 {
        '5'
    } else if d == 6 {
        '6'
    } else if d == 7 {
        '7'
    } else if d == 8 {
        '8'
    } else {
        '9'
    }
}

/// The decimal digits of `n`, most significant first, with no leading
/// zeros (a single `'0'` for zero).
pub open spec fn spec_dec(n: nat) -> Seq<char>
    decreases n,
{
    if n < 10 {
        seq![spec_digit_char(n)]
    } else {
        spec_dec(n / 10).push(spec_digit_char(n % 10))
    }
}

/// The decimal digits of `n`, zero-padded on the left to at least two.
pub open spec fn spec_pad2(n: nat) -> Seq<char> {
    if n < 10 {
        seq!['0'] + spec_dec(n)
    } else {
        spec_dec(n)
    }
}

/// The session display for an elapsed time in whole seconds: minutes and
/// the second remainder, both zero-padded to two digits, framed by single
/// spaces.
pub open spec fn spec_mm_ss(total_secs: nat) -> Seq<char> {
    seq![' '] + spec_pad2(total_secs / 60) + seq![':'] + spec_pad2(total_secs % 60) + seq![' ']
}

/// One decimal digit as a string slice.
fn digit_str(d: u64) -> (s: &'static str)
    requires
        d < 10,
    ensures
        s@ == seq![spec_digit_char(d as nat)],
{
    proof {
        reveal_strlit("0");
        reveal_strlit("1");
        reveal_strlit("2");
        reveal_strlit("3");
        reveal_strlit("4");
        reveal_strlit("5");
        reveal_strlit("6");
        reveal_strlit("7");
        reveal_strlit("8");
        reveal_strlit("9");
    }
    let s = match d {
        0 => "0",
        1 => "1",
        2 => "2",
        3 => "3",
        4 => "4",
        5 => "5",
        6 => "6",
        7 => "7",
        8 => "8",
        _ => "9",
    };
    proof {
        assert(s@ =~= seq![spec_digit_char(d as nat)]);
    }
    s
}

/// The decimal digits of `n`, most significant first.
pub fn dec_string(n: u64) -> (s: String)
    ensures
        s@ == spec_dec(n as nat),
    decreases n,
{
    if n < 10 {
        String::from_str(digit_str(n))
    } else {
        let mut s = dec_string(n / 10);
        s.append(digit_str(n % 10));
        proof {
            assert(s@ =~= spec_dec(n as nat));
        }
        s
    }
}

/// The decimal digits of `n`, zero-padded on the left to at least two.
pub fn pad2_string(n: u64) -> (s: String)
    ensures
        s@ == spec_pad2(n as nat),
{
    if n < 10 {
        let mut s = String::from_str("0");
        s.append(digit_str(n));
        proof {
            reveal_strlit("0");
            assert(s@ =~= spec_pad2(n as nat));
        }
        s
    } else {
        dec_string(n)
    }
}

/// The `" MM:SS "` display for an elapsed time in whole seconds.
pub fn format_mm_ss(total_secs: u64) -> (s: String)
    ensures
        s@ == spec_mm_ss(total_secs as nat),
{
    let minutes = total_secs / 60;
    let seconds = total_secs % 60;
    let mut s = String::from_str(" ");
    let m = pad2_string(minutes);
    s.append(m.as_str());
    s.append(":");
    let sec = pad2_string(seconds);
    s.append(sec.as_str());
    s.append(" ");
    proof {
        reveal_strlit(" ");
        reveal_strlit(":");
        assert(s@ =~= spec_mm_ss(total_secs as nat));
    }
    s
}

/// Whether two string slices spell the same sequence of characters.
pub fn str_eq(a: &str, b: &str) -> (r: bool)
    ensures
        r <==> a@ == b@,
{
    let alen = a.unicode_len();
    let blen = b.unicode_len();
    if alen != blen {
        return false;
    }
    let mut i: usize = 0;
    while i < alen
        invariant
            0 <= i <= alen,
            alen == a@.len(),
            alen == b@.len(),
            forall|j: int| 0 <= j < i ==> a@[j] == b@[j],
        decreases alen - i,
    {
        if a.get_char(i) != b.get_char(i) {
            return false;
        }
        i += 1;
    }
    proof {
        assert(a@ =~= b@);
    }
    true
}

} // verus!
