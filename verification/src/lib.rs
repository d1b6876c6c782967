//! A verified core for a status-bar line emitter.
//!
//! The heart of the crate is the idle-driven break-timer state machine in
//! [`idle`]: it consumes idle/resume notifications and periodic ticks and
//! derives a focus-session display with pause/resume folding, a one-shot
//! reset, and two escalating break thresholds.  Around it stand the block
//! data model ([`swaybar`]), the battery and wifi text derivations
//! ([`power`], [`wifi`]) and the idle-time interpretation ([`pauza`]).
//! Process plumbing (threads, channels, D-Bus, the clock) lives outside
//! this library and hands it plain values.

pub mod display;
pub mod idle;
pub mod pauza;
pub mod power;
pub mod swaybar;
pub mod text;
pub mod wifi;
