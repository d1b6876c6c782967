//! Battery state: the status read from the power supply, its emoji, and
//! the derivation of the power block's text and low-battery highlight.

use vstd::prelude::*;

use crate::swaybar::{opt_string_view, Block};
use crate::text::{parse_i32, spec_parse_i32};
use crate::display::str_eq;

verus! {

/// The charging status reported by the power supply.
#[derive(Debug, Clone, Copy, PartialEq, Eq, Structural)]
pub enum BatteryStatus {
    Unknown,
    Charging,
    Discharging,
    NotCharging,
    Full,
}

/// The status named by a power-supply status line; anything unrecognized
/// is unknown.
pub open spec fn spec_battery_status(s: Seq<char>) -> BatteryStatus {
    if s == "Charging"@ {
        BatteryStatus::Charging
    } else if s == "Discharging"@ {
        BatteryStatus::Discharging
    } else if s == "Not charging"@ {
        BatteryStatus::NotCharging
    } else if s == "Full"@ {
        BatteryStatus::Full
    } else {
        BatteryStatus::Unknown
    }
}

/// The emoji shown for a status.
pub open spec fn spec_emoji(status: BatteryStatus) -> Seq<char> {
    match status {
        BatteryStatus::Charging => "⚡"@,
        BatteryStatus::Discharging => "🔋"@,
        BatteryStatus::NotCharging => "❌"@,
        BatteryStatus::Full => ""@,
        BatteryStatus::Unknown => ""@,
    }
}

impl BatteryStatus {
    /// The status named by a power-supply status line.
    pub fn from_str(s: &str) -> (r: BatteryStatus)
        ensures
            r == spec_battery_status(s@),
    {
        if str_eq(s, "Charging") {
            BatteryStatus::Charging
        } else if str_eq(s, "Discharging") {
            BatteryStatus::Discharging
        } else if str_eq(s, "Not charging") {
            BatteryStatus::NotCharging
        } else if str_eq(s, "Full") {
            BatteryStatus::Full
        } else {
            BatteryStatus::Unknown
        }
    }

    /// The emoji shown for this status.
    pub fn emoji(&self) -> (r: &'static str)
        ensures
            r@ == spec_emoji(*self),
    {
        match self {
            BatteryStatus::Charging => "⚡",
            BatteryStatus::Discharging => "🔋",
            BatteryStatus::NotCharging => "❌",
            BatteryStatus::Full => "",
            BatteryStatus::Unknown => "",
        }
    }
}

/// The character sequence held by an optional string slice.
pub open spec fn spec_opt_str(o: Option<&str>) -> Option<Seq<char>> {
    match o {
        Some(s) => Some(s@),
        None => None,
    }
}

/// The capacity part of the power text: the percentage shows only while
/// charging or discharging, and only when a capacity was read.
pub open spec fn spec_capacity_part(
    status: BatteryStatus,
    capacity: Option<Seq<char>>,
) -> Seq<char> {
    match capacity {
        Some(c) => if status is Charging || status is Discharging {
            c + "%"@
        } else {
            Seq::empty()
        },
        None => Seq::empty(),
    }
}

/// The power block's text: a plug while on wall power, the status emoji,
/// and the capacity percentage while (dis)charging, framed by spaces.
pub open spec fn spec_power_text(
    plugged: bool,
    status: BatteryStatus,
    capacity: Option<Seq<char>>,
) -> Seq<char> {
    " "@ + (if plugged {
        "🔌"@
    } else {
        Seq::<char>::empty()
    }) + spec_emoji(status) + spec_capacity_part(status, capacity) + " "@
}

/// The power block's highlight: the warning color exactly when the
/// battery is discharging and its read capacity parses to at most 15.
pub open spec fn spec_power_background(
    status: BatteryStatus,
    capacity: Option<Seq<char>>,
) -> Option<Seq<char>> {
    match capacity {
        Some(c) => match spec_parse_i32(c) {
            Some(v) => if status is Discharging && v <= 15 {
                Some("FF4500"@)
            } else {
                None
            },
            None => None,
        },
        None => None,
    }
}

/// Derive the power block from what was read from the power supply: the
/// wall-power state, the battery status, and the capacity line if any.
pub fn power_block(plugged: bool, status: BatteryStatus, capacity: Option<&str>) -> (b: Block)
    ensures
        b.full_text@ == spec_power_text(plugged, status, spec_opt_str(capacity)),
        opt_string_view(b.background) == spec_power_background(status, spec_opt_str(capacity)),
        b.is_plain(),
{
    let mut text = String::from_str(" ");
    if plugged {
        text.append("🔌");
    }
    text.append(status.emoji());
    let mut background: Option<String> = None;
    match status {
        BatteryStatus::Charging | BatteryStatus::Discharging => {
            if let Some(cap) = capacity {
                text.append(cap);
                text.append("%");
                if let Some(v) = parse_i32(cap) {
                    if v <= 15 && status == BatteryStatus::Discharging {
                        background = Some(String::from_str("FF4500"));
                    }
                }
            }
        },
        _ => {},
    }
    text.append(" ");
    proof {
        assert(text@ =~= spec_power_text(plugged, status, spec_opt_str(capacity)));
    }
    Block::plain(text, background)
}

} // verus!
