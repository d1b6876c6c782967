//! Interpretation of the screensaver's idle-time reports, and the
//! derivation of idle/resume notifications from a stream of such
//! reports: one watcher remembers, per threshold, whether the user
//! already counted as idle, and emits an event only on a change.

use vstd::prelude::*;

use crate::idle::{PauzaEvent, Threshold, IDLE_PAUSE_TIME, IDLE_RESET_TIME, SHORT_BREAK_DURATION};

verus! {

/// Failure to obtain an idle-time report.
#[derive(Debug)]
pub enum Error {
    /// No known screensaver interface answered.
    NoScreenSaverAvailable,
}

/// The idle time in milliseconds behind a screensaver's answer: the
/// freedesktop interface answers in milliseconds, the others in seconds.
pub fn idle_millis(reported_in_millis: bool, time: u32) -> (r: u64)
    ensures
        r == if reported_in_millis {
            time as int
        } else {
            (time as int) * 1000
        },
{
    if reported_in_millis {
        time as u64
    } else {
        (time as u64) * 1000
    }
}

/// Which thresholds currently count the user as idle.
#[derive(Debug, Clone, Copy, PartialEq, Eq, Structural)]
pub struct IdleWatch {
    pub pause_idle: bool,
    pub short_break_idle: bool,
    pub reset_idle: bool,
}

/// The notifications one threshold emits when its idle state moves from
/// `was` to `now_idle`: one on each genuine change, none otherwise.
pub open spec fn spec_threshold_events(
    was: bool,
    now_idle: bool,
    th: Threshold,
) -> Seq<PauzaEvent> {
    if !was && now_idle {
        seq![PauzaEvent::WentIdle(th)]
    } else if was && !now_idle {
        seq![PauzaEvent::Resumed(th)]
    } else {
        Seq::empty()
    }
}

impl IdleWatch {
    /// A watcher that counts the user as active on every threshold.
    pub fn new() -> (w: IdleWatch)
        ensures
            w == (IdleWatch { pause_idle: false, short_break_idle: false, reset_idle: false }),
    {
        IdleWatch { pause_idle: false, short_break_idle: false, reset_idle: false }
    }

    /// The watcher's state after a report of `idle_ms` of idle time.
    pub open spec fn spec_after(self, idle_ms: u64) -> IdleWatch {
        IdleWatch {
            pause_idle: idle_ms >= IDLE_PAUSE_TIME,
            short_break_idle: idle_ms >= SHORT_BREAK_DURATION,
            reset_idle: idle_ms >= IDLE_RESET_TIME,
        }
    }

    /// The notifications a report of `idle_ms` of idle time produces:
    /// per threshold, one on each crossing, in threshold order.
    pub open spec fn spec_events(self, idle_ms: u64) -> Seq<PauzaEvent> {
        spec_threshold_events(self.pause_idle, idle_ms >= IDLE_PAUSE_TIME, Threshold::Pause)
            + spec_threshold_events(
            self.short_break_idle,
            idle_ms >= SHORT_BREAK_DURATION,
            Threshold::ShortBreak,
        ) + spec_threshold_events(self.reset_idle, idle_ms >= IDLE_RESET_TIME, Threshold::Reset)
    }

    /// Consume one idle-time report: remember which thresholds now count
    /// as idle, and hand back the notifications of every crossing.
    pub fn observe(&mut self, idle_ms: u64) -> (events: Vec<PauzaEvent>)
        ensures
            *final(self) == old(self).spec_after(idle_ms),
            events@ == old(self).spec_events(idle_ms),
    {
        let mut events: Vec<PauzaEvent> = Vec::new();
        let pause_idle = idle_ms >= IDLE_PAUSE_TIME;
        let short_break_idle = idle_ms >= SHORT_BREAK_DURATION;
        let reset_idle = idle_ms >= IDLE_RESET_TIME;
        if !self.pause_idle && pause_idle {
            events.push(PauzaEvent::WentIdle(Threshold::Pause));
        } else if self.pause_idle && !pause_idle {
            events.push(PauzaEvent::Resumed(Threshold::Pause));
        }
        if !self.short_break_idle && short_break_idle {
            events.push(PauzaEvent::WentIdle(Threshold::ShortBreak));
        } else if self.short_break_idle && !short_break_idle {
            events.push(PauzaEvent::Resumed(Threshold::ShortBreak));
        }
        if !self.reset_idle && reset_idle {
            events.push(PauzaEvent::WentIdle(Threshold::Reset));
        } else if self.reset_idle && !reset_idle {
            events.push(PauzaEvent::Resumed(Threshold::Reset));
        }
        self.pause_idle = pause_idle;
        self.short_break_idle = short_break_idle;
        self.reset_idle = reset_idle;
        proof {
            assert(events@ =~= old(self).spec_events(idle_ms));
        }
        events
    }
}

} // verus!
