//! The wifi association state, derived from the report of the wireless
//! tool: the first line of the form `ssid <name>` (once surrounding
//! whitespace is trimmed) names the network.

use vstd::prelude::*;

use crate::display::str_eq;
use crate::swaybar::{opt_string_view, Block};

verus! {

/// The association state of the wireless interface.
#[derive(Debug, Clone, PartialEq, Eq)]
pub enum WifiStatus {
    /// The tool could not be run or its report could not be read.
    Error,
    /// The report names no network.
    Down,
    /// The name of the associated network.
    Up(String),
}

/// Whitespace that may surround a report line.
pub open spec fn is_line_space(c: char) -> bool {
    c == ' ' || c == '\t' || c == '\r'
}

/// `l` without its leading whitespace.
pub open spec fn spec_trim_front(l: Seq<char>) -> Seq<char>
    decreases l.len(),
{
    if l.len() > 0 && is_line_space(l[0]) {
        spec_trim_front(l.skip(1))
    } else {
        l
    }
}

/// `l` without its trailing whitespace.
pub open spec fn spec_trim_back(l: Seq<char>) -> Seq<char>
    decreases l.len(),
{
    if l.len() > 0 && is_line_space(l.last()) {
        spec_trim_back(l.drop_last())
    } else {
        l
    }
}

/// `l` without its surrounding whitespace.
pub open spec fn spec_trim(l: Seq<char>) -> Seq<char> {
    spec_trim_back(spec_trim_front(l))
}

/// The index of the first occurrence of `c` in `t`, or a negative answer
/// when there is none.
pub open spec fn spec_find_char(t: Seq<char>, c: char) -> int
    decreases t.len(),
{
    if t.len() == 0 {
        -1
    } else if t[0] == c {
        0
    } else {
        let r = spec_find_char(t.skip(1), c);
        if r < 0 {
            -1
        } else {
            1 + r
        }
    }
}

/// The network name carried by one report line: after trimming, a first
/// word `ssid` followed by a space yields the rest of the line.
pub open spec fn spec_ssid_line(l: Seq<char>) -> Option<Seq<char>> {
    let t = spec_trim(l);
    let k = spec_find_char(t, ' ');
    if k >= 0 && t.take(k) == "ssid"@ {
        Some(t.skip(k + 1))
    } else {
        None
    }
}

/// The network name carried by a whole report: the first line that names
/// one, lines being separated by newlines.
pub open spec fn spec_find_ssid(sv: Seq<char>) -> Option<Seq<char>>
    decreases sv.len(),
{
    let k = spec_find_char(sv, '\n');
    if 0 <= k < sv.len() {
        match spec_ssid_line(sv.take(k)) {
            Some(v) => Some(v),
            None => spec_find_ssid(sv.skip(k + 1)),
        }
    } else {
        spec_ssid_line(sv)
    }
}

/// Whether a derived status reports exactly the outcome of the search
/// for a network name.
pub open spec fn spec_wifi_result(r: WifiStatus, m: Option<Seq<char>>) -> bool {
    match m {
        Some(v) => r matches WifiStatus::Up(u) && u@ == v,
        None => r is Down,
    }
}

/// Whether `c` is whitespace that may surround a report line.
fn is_space(c: char) -> (r: bool)
    ensures
        r == is_line_space(c),
{
    c == ' ' || c == '\t' || c == '\r'
}

/// Strip the leading whitespace of a line.
fn trim_front(s: &str) -> (r: &str)
    ensures
        r@ == spec_trim_front(s@),
    decreases s@.len(),
{
    let n = s.unicode_len();
    if n > 0 && is_space(s.get_char(0)) {
        proof {
            assert(s@.subrange(1, n as int) =~= s@.skip(1));
        }
        trim_front(s.substring_char(1, n))
    } else {
        s
    }
}

/// Strip the trailing whitespace of a line.
fn trim_back(s: &str) -> (r: &str)
    ensures
        r@ == spec_trim_back(s@),
    decreases s@.len(),
{
    let n = s.unicode_len();
    if n > 0 && is_space(s.get_char(n - 1)) {
        proof {
            assert(s@.subrange(0, n - 1) =~= s@.drop_last());
        }
        trim_back(s.substring_char(0, n - 1))
    } else {
        s
    }
}

/// A first occurrence seen at `k` is the one the search finds.
proof fn lemma_find_char_at(t: Seq<char>, c: char, k: int)
    requires
        0 <= k < t.len(),
        t[k] == c,
        forall|j: int| 0 <= j < k ==> t[j] != c,
    ensures
        spec_find_char(t, c) == k,
    decreases k,
{
    if k > 0 {
        lemma_find_char_at(t.skip(1), c, k - 1);
    }
}

/// Where no occurrence exists, the search answers negatively.
proof fn lemma_find_char_none(t: Seq<char>, c: char)
    requires
        forall|j: int| 0 <= j < t.len() ==> t[j] != c,
    ensures
        spec_find_char(t, c) < 0,
    decreases t.len(),
{
    if t.len() > 0 {
        lemma_find_char_none(t.skip(1), c);
    }
}

/// The index of the first occurrence of `target` in `s`, if any.
fn find_char_in(s: &str, target: char) -> (r: Option<usize>)
    ensures
        match r {
            Some(k) => spec_find_char(s@, target) == k && k < s@.len(),
            None => spec_find_char(s@, target) < 0,
        },
{
    let n = s.unicode_len();
    let mut i: usize = 0;
    while i < n
        invariant
            0 <= i <= n,
            n == s@.len(),
            forall|j: int| 0 <= j < i ==> s@[j] != target,
        decreases n - i,
    {
        if s.get_char(i) == target {
            proof {
                lemma_find_char_at(s@, target, i as int);
            }
            return Some(i);
        }
        i += 1;
    }
    proof {
        lemma_find_char_none(s@, target);
    }
    None
}

/// The network name carried by one report line, if any.
fn parse_iw_line(line: &str) -> (r: Option<String>)
    ensures
        opt_string_view(r) == spec_ssid_line(line@),
{
    let t = trim_back(trim_front(line));
    let n = t.unicode_len();
    match find_char_in(t, ' ') {
        Some(k) => {
            let key = t.substring_char(0, k);
            proof {
                assert(t@.subrange(0, k as int) =~= t@.take(k as int));
            }
            if str_eq(key, "ssid") {
                proof {
                    assert(t@.subrange(k + 1, n as int) =~= t@.skip(k + 1));
                }
                Some(String::from_str(t.substring_char(k + 1, n)))
            } else {
                None
            }
        },
        None => None,
    }
}

/// Derive the association state from the wireless tool's report: the
/// first line naming a network wins, else the interface counts as down.
pub fn parse_iw_output(s: &str) -> (r: WifiStatus)
    ensures
        spec_wifi_result(r, spec_find_ssid(s@)),
    decreases s@.len(),
{
    let n = s.unicode_len();
    match find_char_in(s, '\n') {
        Some(k) => {
            proof {
                assert(s@.subrange(0, k as int) =~= s@.take(k as int));
                assert(s@.subrange(k + 1, n as int) =~= s@.skip(k + 1));
            }
            let line = s.substring_char(0, k);
            match parse_iw_line(line) {
                Some(v) => WifiStatus::Up(v),
                None => parse_iw_output(s.substring_char(k + 1, n)),
            }
        },
        None => match parse_iw_line(s) {
            Some(v) => WifiStatus::Up(v),
            None => WifiStatus::Down,
        },
    }
}

/// The wifi block's text for a derived status.
pub open spec fn spec_wifi_text(st: WifiStatus) -> Seq<char> {
    " "@ + (match st {
        WifiStatus::Error => "📡‼️"@,
        WifiStatus::Down => "📡🔻"@,
        WifiStatus::Up(w) => "📡"@ + w@,
    }) + " "@
}

/// Derive the wifi block from the association state.
pub fn wifi_block(status: &WifiStatus) -> (b: Block)
    ensures
        b.full_text@ == spec_wifi_text(*status),
        b.background is None,
        b.is_plain(),
{
    let mut text = String::from_str(" ");
    match status {
        WifiStatus::Error => text.append("📡‼️"),
        WifiStatus::Down => text.append("📡🔻"),
        WifiStatus::Up(w) => {
            text.append("📡");
            text.append(w.as_str());
        },
    }
    text.append(" ");
    proof {
        assert(text@ =~= spec_wifi_text(*status));
    }
    Block::plain(text, None)
}

} // verus!
