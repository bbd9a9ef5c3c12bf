//! The pacer: given a packet's presentation timestamp and the time elapsed
//! since the session started, decide how many microseconds to sleep before
//! emitting the packet, so that wall-clock gaps reproduce the gaps implied
//! by the timestamps. Config packets are never delayed.

use vstd::prelude::*;

verus! {

/// How a packet's timestamp is turned into a wait target.
#[derive(Clone, Copy, Debug, PartialEq, Eq, Structural)]
pub enum PacingMode {
    /// The first non-config timestamp becomes the zero point; later packets
    /// wait for `pts - origin` from session start.
    OriginRelative,
    /// Every non-config timestamp is itself the duration since session start.
    Absolute,
}

/// Pacing state threaded through one relay run.
#[derive(Clone, Copy, Debug, PartialEq, Eq)]
pub struct Pacer {
    pub mode: PacingMode,
    /// Timestamp of the first non-config packet seen, once one was seen;
    /// only origin-relative pacing ever sets it.
    pub origin: Option<u64>,
}

/// The wait in microseconds that a packet gets from pacing state `p` when
/// `elapsed` microseconds have passed since session start. Never negative:
/// a late packet (target at or before `elapsed`) waits zero.
pub open spec fn spec_wait(p: Pacer, pts: u64, is_config: bool, elapsed: u64) -> u64 {
    if is_config {
        0
    } else {
        match p.mode {
            PacingMode::Absolute => if pts > elapsed {
                (pts - elapsed) as u64
            } else {
                0
            },
            PacingMode::OriginRelative => match p.origin {
                Option::None => 0,
                Option::Some(o) => if pts >= o && pts - o > elapsed {
                    (pts - o - elapsed) as u64
                } else {
                    0
                },
            },
        }
    }
}

/// The pacing state after a packet: only the first non-config packet under
/// origin-relative pacing records its timestamp; nothing else changes.
pub open spec fn spec_step(p: Pacer, pts: u64, is_config: bool) -> Pacer {
    if !is_config && p.mode is OriginRelative && p.origin is None {
        Pacer { mode: p.mode, origin: Option::Some(pts) }
    } else {
        p
    }
}

impl Pacer {
    /// A fresh pacer with no origin recorded yet.
    pub fn new(mode: PacingMode) -> (p: Pacer)
        ensures
            p.mode == mode,
            p.origin is None,
    {
        Pacer { mode, origin: Option::None }
    }

    /// Decide the wait for one packet and record the origin when due.
    pub fn wait_micros(&mut self, pts: u64, is_config: bool, elapsed_micros: u64) -> (w: u64)
        ensures
            w == spec_wait(*old(self), pts, is_config, elapsed_micros),
            *final(self) == spec_step(*old(self), pts, is_config),
            is_config ==> w == 0 && *final(self) == *old(self),
    {
        if is_config {
            return 0;
        }
        match self.mode {
            PacingMode::Absolute => {
                if pts > elapsed_micros {
                    pts - elapsed_micros
                } else {
                    0
                }
            },
            PacingMode::OriginRelative => {
                match self.origin {
                    Option::None => {
                        self.origin = Option::Some(pts);
                        0
                    },
                    Option::Some(o) => {
                        if pts >= o {
                            let target: u64 = pts - o;
                            if target > elapsed_micros {
                                target - elapsed_micros
                            } else {
                                0
                            }
                        } else {
                            0
                        }
                    },
                }
            },
        }
    }
}

/// Config packets are never delayed and never move the origin, whatever
/// their timestamp, the mode, or the elapsed time.
pub proof fn lemma_config_never_waits(p: Pacer, pts: u64, elapsed: u64)
    ensures
        spec_wait(p, pts, true, elapsed) == 0,
        spec_step(p, pts, true) == p,
{
}

/// Under origin-relative pacing the first non-config packet is emitted
/// immediately, however large its timestamp, and becomes the origin.
pub proof fn lemma_first_packet_immediate(p: Pacer, pts: u64, elapsed: u64)
    requires
        p.mode is OriginRelative,
        p.origin is None,
    ensures
        spec_wait(p, pts, false, elapsed) == 0,
        spec_step(p, pts, false).origin == Option::Some(pts),
{
}

/// A packet whose target lies at or before the elapsed time waits zero:
/// the pacer never sleeps a negative duration and never compensates.
pub proof fn lemma_late_packet_no_wait(p: Pacer, pts: u64, elapsed: u64)
    requires
        match p.mode {
            PacingMode::Absolute => pts <= elapsed,
            PacingMode::OriginRelative => p.origin matches Option::Some(o) && pts - o <= elapsed,
        },
    ensures
        spec_wait(p, pts, false, elapsed) == 0,
{
}

} // verus!
