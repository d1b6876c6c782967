//! The idle-driven break-timer state machine.
//!
//! A single [`Session`] consumes idle/resume notifications and periodic
//! ticks and derives the focus-session display: elapsed time excludes
//! paused intervals (a completed pause is folded into the start instant),
//! a long-idle threshold arms a one-shot `" 00:00 "` reset, and two
//! elapsed-time thresholds color the display.  All times are milliseconds
//! on one injected clock; the caller supplies `now` with every event.

use vstd::prelude::*;

use crate::display::{format_mm_ss, spec_mm_ss};
use crate::swaybar::{opt_string_view, Block};

verus! {

/// Idle threshold that must elapse before the timer pauses.
pub const IDLE_PAUSE_TIME: u64 = 30 * 1000;

/// Idle threshold that arms the one-shot session reset.
pub const IDLE_RESET_TIME: u64 = 300 * 1000;

/// Elapsed focus time after which the short-break color shows.
pub const SHORT_BREAK_TIME: u64 = 1500 * 1000;

/// Idle threshold that counts as a short break taken.
pub const SHORT_BREAK_DURATION: u64 = 60 * 1000;

/// Elapsed focus time after which the long-break color shows.
pub const BREAK_TIME: u64 = 2700 * 1000;

/// One of the three independently watched idle thresholds.
#[derive(Debug, Clone, Copy, PartialEq, Eq, Structural)]
pub enum Threshold {
    Pause,
    ShortBreak,
    Reset,
}

/// One event consumed by the state machine: a periodic tick, or an
/// idle/resume notification for one threshold.
#[derive(Debug, Clone, Copy, PartialEq, Eq, Structural)]
pub enum PauzaEvent {
    Tick,
    WentIdle(Threshold),
    Resumed(Threshold),
}

/// The focus-session state: the (pause-adjusted) start instant, the start
/// of an ongoing pause if the session is paused, and the two one-shot
/// gates.
#[derive(Debug, Clone, Copy, PartialEq, Eq)]
pub struct Session {
    pub start: u64,
    pub pause_start: Option<u64>,
    pub has_reset: bool,
    pub short_break_taken: bool,
}

/// A fresh session started at `now`: running, with both gates clear.
pub open spec fn spec_init(now: u64) -> Session {
    Session { start: now, pause_start: None, has_reset: false, short_break_taken: false }
}

/// The start instant advanced by the pause that began at `pause_start`
/// and ends at `now`.  A pause on a clock that ran backwards counts as
/// empty, and the advance saturates rather than wraps.
pub open spec fn spec_folded_start(start: u64, pause_start: u64, now: u64) -> u64 {
    let d = if pause_start <= now {
        (now - pause_start) as u64
    } else {
        0u64
    };
    if d <= u64::MAX - start {
        (start + d) as u64
    } else {
        u64::MAX
    }
}

impl Session {
    /// The session is paused exactly when a pause start is recorded.
    pub open spec fn is_paused(self) -> bool {
        self.pause_start is Some
    }

    /// Focus time elapsed by `now`, in milliseconds, clamped to zero if
    /// the clock ran backwards past the start instant.
    pub open spec fn elapsed_millis(self, now: u64) -> u64 {
        if self.start <= now {
            (now - self.start) as u64
        } else {
            0u64
        }
    }

    /// Well-formedness against the current instant: the start lies in the
    /// past, and so does an ongoing pause, begun no earlier than the
    /// start.  This is the regime of a monotonic clock; every operation
    /// also tolerates its absence by clamping.
    pub open spec fn wf(self, now: u64) -> bool {
        &&& self.start <= now
        &&& match self.pause_start {
            Some(p) => self.start <= p && p <= now,
            None => true,
        }
    }
}

/// An ongoing pause folded into the start instant and re-anchored at
/// `now`; a running session is unchanged.  This is how an idle event that
/// arrives while paused sees an elapsed time that excludes the pause so
/// far without ending it.
pub open spec fn spec_reanchored(s: Session, now: u64) -> Session {
    match s.pause_start {
        Some(p) => Session {
            start: spec_folded_start(s.start, p, now),
            pause_start: Some(now),
            ..s
        },
        None => s,
    }
}

/// The highlight color of a tick display: past the long-break threshold
/// the long-break color, past the short-break threshold (and not yet
/// taken) the short-break color, else none.
pub open spec fn spec_color(s: Session, elapsed: u64) -> Option<Seq<char>> {
    if elapsed > BREAK_TIME {
        Some("FF0000"@)
    } else if !s.short_break_taken && elapsed > SHORT_BREAK_TIME {
        Some("FF4500"@)
    } else {
        None
    }
}

/// The successor session of one transition of the table: how `s` changes
/// on `e` at instant `now`.
pub open spec fn spec_step(s: Session, e: PauzaEvent, now: u64) -> Session {
    match e {
        PauzaEvent::Tick => {
            if s.is_paused() {
                s
            } else if s.elapsed_millis(now) > BREAK_TIME && !s.short_break_taken {
                Session { short_break_taken: true, ..s }
            } else {
                s
            }
        },
        PauzaEvent::WentIdle(Threshold::Pause) => {
            if s.is_paused() {
                s
            } else {
                Session { pause_start: Some(now), ..s }
            }
        },
        PauzaEvent::WentIdle(Threshold::ShortBreak) => {
            let s1 = spec_reanchored(s, now);
            if !s1.short_break_taken && s1.elapsed_millis(now) > SHORT_BREAK_TIME {
                Session { short_break_taken: true, ..s1 }
            } else {
                s1
            }
        },
        PauzaEvent::WentIdle(Threshold::Reset) => {
            if s.has_reset {
                s
            } else {
                Session { has_reset: true, ..s }
            }
        },
        PauzaEvent::Resumed(_) => {
            if s.has_reset {
                spec_init(now)
            } else {
                match s.pause_start {
                    Some(p) => Session {
                        start: spec_folded_start(s.start, p, now),
                        pause_start: None,
                        ..s
                    },
                    None => s,
                }
            }
        },
    }
}

/// The block emitted by one transition, if any: its text and its optional
/// highlight color.
pub open spec fn spec_emit(s: Session, e: PauzaEvent, now: u64) -> Option<
    (Seq<char>, Option<Seq<char>>),
> {
    match e {
        PauzaEvent::Tick => {
            if s.is_paused() {
                None
            } else {
                Some(
                    (
                        spec_mm_ss((s.elapsed_millis(now) / 1000) as nat),
                        spec_color(s, s.elapsed_millis(now)),
                    ),
                )
            }
        },
        PauzaEvent::WentIdle(Threshold::Pause) => None,
        PauzaEvent::WentIdle(Threshold::ShortBreak) => {
            let s1 = spec_reanchored(s, now);
            if !s1.short_break_taken && s1.elapsed_millis(now) > SHORT_BREAK_TIME {
                Some((spec_mm_ss((s1.elapsed_millis(now) / 1000) as nat), None))
            } else {
                None
            }
        },
        PauzaEvent::WentIdle(Threshold::Reset) => {
            if s.has_reset {
                None
            } else {
                Some((" 00:00 "@, None))
            }
        },
        PauzaEvent::Resumed(_) => None,
    }
}

/// Whether an emitted block carries exactly the text and color of the
/// transition table's output, and nothing else.
pub open spec fn emit_matches(
    out: Option<Block>,
    m: Option<(Seq<char>, Option<Seq<char>>)>,
) -> bool {
    match (out, m) {
        (Some(b), Some(p)) => b.full_text@ == p.0 && opt_string_view(b.background) == p.1
            && b.is_plain(),
        (None, None) => true,
        _ => false,
    }
}

/// The start instant advanced by a completed pause.
fn folded_start(start: u64, pause_start: u64, now: u64) -> (r: u64)
    ensures
        r == spec_folded_start(start, pause_start, now),
{
    let d = if pause_start <= now {
        now - pause_start
    } else {
        0
    };
    if d <= u64::MAX - start {
        start + d
    } else {
        u64::MAX
    }
}

impl Session {
    /// A fresh session started at `now`.
    pub fn new(now: u64) -> (s: Session)
        ensures
            s == spec_init(now),
    {
        Session { start: now, pause_start: None, has_reset: false, short_break_taken: false }
    }

    /// Focus time elapsed by `now`, in milliseconds.
    pub fn elapsed_at(&self, now: u64) -> (r: u64)
        ensures
            r == self.elapsed_millis(now),
    {
        if self.start <= now {
            now - self.start
        } else {
            0
        }
    }

    /// Consume one event at instant `now`: the session becomes the
    /// successor of the transition table, and the returned block, when
    /// there is one, carries exactly the table's text and color.
    pub fn handle_event(&mut self, event: PauzaEvent, now: u64) -> (out: Option<Block>)
        ensures
            *final(self) == spec_step(*old(self), event, now),
            emit_matches(out, spec_emit(*old(self), event, now)),
    {
        match event {
            PauzaEvent::Tick => {
                if self.pause_start.is_some() {
                    None
                } else {
                    let elapsed = self.elapsed_at(now);
                    let background: Option<String> = if elapsed > BREAK_TIME {
                        if !self.short_break_taken {
                            // prevent a later short-break event from
                            // re-coloring once the long break is reached
                            self.short_break_taken = true;
                        }
                        Some(String::from_str("FF0000"))
                    } else if !self.short_break_taken && elapsed > SHORT_BREAK_TIME {
                        Some(String::from_str("FF4500"))
                    } else {
                        None
                    };
                    let full_text = format_mm_ss(elapsed / 1000);
                    Some(Block::plain(full_text, background))
                }
            },
            PauzaEvent::WentIdle(Threshold::Pause) => {
                if self.pause_start.is_none() {
                    self.pause_start = Some(now);
                }
                None
            },
            PauzaEvent::WentIdle(Threshold::ShortBreak) => {
                if let Some(p) = self.pause_start {
                    // the short-break check must not count the ongoing
                    // pause: fold it and re-anchor it at now
                    self.start = folded_start(self.start, p, now);
                    self.pause_start = Some(now);
                }
                let elapsed = self.elapsed_at(now);
                if !self.short_break_taken && elapsed > SHORT_BREAK_TIME {
                    self.short_break_taken = true;
                    // clear the color of the bar
                    let full_text = format_mm_ss(elapsed / 1000);
                    Some(Block::plain(full_text, None))
                } else {
                    None
                }
            },
            PauzaEvent::WentIdle(Threshold::Reset) => {
                if !self.has_reset {
                    self.has_reset = true;
                    Some(Block::plain(String::from_str(" 00:00 "), None))
                } else {
                    None
                }
            },
            PauzaEvent::Resumed(_) => {
                if self.has_reset {
                    *self = Session::new(now);
                } else if let Some(p) = self.pause_start {
                    self.start = folded_start(self.start, p, now);
                    self.pause_start = None;
                }
                None
            },
        }
    }
}

/// Label a block the state machine derived for publication in its source
/// slot: the emitter names the source and frames the block.
pub fn emitter_block(b: Block, name: String, instance: String) -> (r: Block)
    ensures
        r == (Block {
            name: Some(name),
            instance: Some(instance),
            border_left: Some(3usize),
            border_right: Some(3usize),
            ..b
        }),
{
    Block {
        name: Some(name),
        instance: Some(instance),
        border_left: Some(3),
        border_right: Some(3),
        ..b
    }
}

/// After any transition the session is in the paused state exactly when
/// a pause start is recorded.
pub proof fn lemma_paused_iff_pause_start(s: Session, e: PauzaEvent, now: u64)
    ensures
        spec_step(s, e, now).is_paused() <==> spec_step(s, e, now).pause_start is Some,
{
}

/// Well-formedness holds at any later instant.
pub proof fn lemma_wf_monotone(s: Session, now: u64, later: u64)
    requires
        s.wf(now),
        now <= later,
    ensures
        s.wf(later),
{
}

/// Every transition taken at a well-formed instant leaves the session
/// well-formed at that instant: the start only ever moves to a
/// past-or-present instant, and so does the pause start.
pub proof fn lemma_step_preserves_wf(s: Session, e: PauzaEvent, now: u64)
    requires
        s.wf(now),
    ensures
        spec_step(s, e, now).wf(now),
{
}

/// The session left by a whole sequence of timestamped events, consumed
/// in order.
pub open spec fn spec_run(s: Session, events: Seq<(PauzaEvent, u64)>) -> Session
    decreases events.len(),
{
    if events.len() == 0 {
        s
    } else {
        spec_run(spec_step(s, events[0].0, events[0].1), events.skip(1))
    }
}

/// For every sequence of events on a clock that never runs backwards, a
/// well-formed session stays well-formed through the whole run — and so,
/// after each transition, a recorded pause start lies between the start
/// instant and the present.
pub proof fn lemma_run_preserves_wf(s: Session, events: Seq<(PauzaEvent, u64)>, t0: u64)
    requires
        s.wf(t0),
        events.len() > 0,
        t0 <= events[0].1,
        forall|i: int, j: int| 0 <= i < j < events.len() ==> events[i].1 <= events[j].1,
    ensures
        spec_run(s, events).wf(events.last().1),
    decreases events.len(),
{
    lemma_wf_monotone(s, t0, events[0].1);
    lemma_step_preserves_wf(s, events[0].0, events[0].1);
    let s1 = spec_step(s, events[0].0, events[0].1);
    if events.len() == 1 {
        assert(events.skip(1).len() == 0);
        assert(spec_run(s1, events.skip(1)) == s1);
        assert(spec_run(s, events) == s1);
    } else {
        let rest = events.skip(1);
        assert(forall|i: int, j: int|
            0 <= i < j < rest.len() ==> rest[i].1 <= rest[j].1) by {
            assert(forall|i: int| 0 <= i < rest.len() ==> rest[i] == events[i + 1]);
        }
        assert(events[0].1 <= rest[0].1);
        lemma_run_preserves_wf(s1, rest, events[0].1);
        assert(rest.last() == events.last());
    }
}

/// While paused, ticks are suppressed: they neither change the session
/// nor emit a block.  Only idle events may still move the one-shot gates.
pub proof fn lemma_tick_suppressed_while_paused(s: Session, now: u64)
    requires
        s.is_paused(),
    ensures
        spec_step(s, PauzaEvent::Tick, now) == s,
        spec_emit(s, PauzaEvent::Tick, now) is None,
{
}

/// The reset gate is idempotent: a long-idle notification that finds the
/// gate already armed changes nothing and emits nothing.
pub proof fn lemma_reset_idempotent(s: Session, now: u64)
    requires
        s.has_reset,
    ensures
        spec_step(s, PauzaEvent::WentIdle(Threshold::Reset), now) == s,
        spec_emit(s, PauzaEvent::WentIdle(Threshold::Reset), now) is None,
{
}

/// Pause/resume round trip: pausing a running session and resuming it
/// any amount of time later leaves the elapsed focus time exactly where
/// it stood at the pause — the paused interval never counts.
pub proof fn lemma_pause_resume_round_trip(s: Session, pause_at: u64, resume_at: u64)
    requires
        s.wf(pause_at),
        !s.is_paused(),
        !s.has_reset,
        pause_at <= resume_at,
    ensures
        ({
            let resumed = spec_step(
                spec_step(s, PauzaEvent::WentIdle(Threshold::Pause), pause_at),
                PauzaEvent::Resumed(Threshold::Pause),
                resume_at,
            );
            &&& !resumed.is_paused()
            &&& resumed.elapsed_millis(resume_at) == s.elapsed_millis(pause_at)
        }),
{
}

/// Restart law: once the reset gate is armed, the next resume of any
/// threshold restarts the session at that instant and clears both gates.
pub proof fn lemma_resume_restarts_after_reset(s: Session, th: Threshold, now: u64)
    requires
        s.has_reset,
    ensures
        spec_step(s, PauzaEvent::Resumed(th), now) == spec_init(now),
{
}

/// Threshold monotonicity: no transition clears the short-break gate
/// other than the full restart that a resume performs while the reset
/// gate is armed.
pub proof fn lemma_short_break_monotone(s: Session, e: PauzaEvent, now: u64)
    requires
        s.short_break_taken,
        !(e is Resumed && s.has_reset),
    ensures
        spec_step(s, e, now).short_break_taken,
{
}

/// Color priority: past the long-break threshold the display carries the
/// long-break color, whatever the short-break threshold and gate say.
pub proof fn lemma_color_priority(s: Session, elapsed: u64)
    requires
        elapsed > BREAK_TIME,
    ensures
        spec_color(s, elapsed) == Some("FF0000"@),
{
}

} // verus!
