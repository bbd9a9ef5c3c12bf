//! The relay loop as a state machine: from the bytes read for a header (or
//! end-of-stream) and the elapsed session time, decide whether and how to
//! forward a packet; from the number of payload bytes actually copied,
//! decide whether the stream goes on. The caller performs the reads, the
//! sleep and the writes, and hands the outcomes back.
//!
//! Read policy: any shortfall while reading a header, even a single missing
//! byte, is reported by the caller as end-of-stream and ends the relay
//! cleanly; a payload shorter than declared likewise ends it after the
//! available bytes were forwarded.

use vstd::prelude::*;

use crate::header::{decode, reencode_byte, reencode_header, spec_decode, MetaHeader};
use crate::pacer::{spec_step, spec_wait, Pacer, PacingMode};
use crate::sink::{channel_prefix, spec_channel_prefix};

verus! {

/// The two sink framings a relay can drive.
#[derive(Clone, Copy, Debug, PartialEq, Eq, Structural)]
pub enum Framing {
    /// Endpoint-addressed kymux link: handshake first, bare headers after.
    EndpointHandshake,
    /// Raw channel-multiplexed link: no handshake, a channel-identifier
    /// prefix before every header.
    RawChannel,
}

/// What the source yielded when a header was expected.
#[derive(Clone, Debug)]
pub enum HeaderEvent {
    /// A full 12-byte header.
    Bytes(Vec<u8>),
    /// Nothing, or fewer than 12 bytes: the stream is over.
    EndOfStream,
}

/// What the caller must do next.
#[derive(Clone, Debug)]
pub enum RelayAction {
    /// Sleep `wait_micros`, then write `prefix`, then `header`, then copy
    /// exactly `payload_size` bytes from the source to the sink. `pts` is
    /// the packet's timestamp, for progress reporting only.
    Forward { wait_micros: u64, pts: u64, prefix: Vec<u8>, header: Vec<u8>, payload_size: u32 },
    /// The relay is over; write nothing.
    Stop,
}

/// One relay run: pacing state plus the per-variant policies.
#[derive(Clone, Copy, Debug)]
pub struct Relay {
    pub pacer: Pacer,
    /// Re-encode the first header byte into the destination layout; some
    /// variants pass headers through unchanged.
    pub reencode: bool,
    pub framing: Framing,
    pub done: bool,
}

/// The header bytes as they go out: byte 0 re-encoded when the variant asks
/// for it, bytes 1 onward always as they came in.
pub open spec fn spec_out_header(s: Seq<u8>, reencode: bool) -> Seq<u8> {
    if reencode {
        s.update(0, reencode_byte(s[0]))
    } else {
        s
    }
}

/// The per-packet prefix a framing asks for.
pub open spec fn spec_frame_prefix(f: Framing) -> Seq<u8> {
    match f {
        Framing::EndpointHandshake => Seq::empty(),
        Framing::RawChannel => spec_channel_prefix(),
    }
}

impl Relay {
    /// A relay that has forwarded nothing yet.
    pub fn new(mode: PacingMode, reencode: bool, framing: Framing) -> (r: Relay)
        ensures
            r.pacer.mode == mode,
            r.pacer.origin is None,
            r.reencode == reencode,
            r.framing == framing,
            !r.done,
    {
        Relay { pacer: Pacer::new(mode), reencode, framing, done: false }
    }

    /// Decide on the bytes read for a header. End-of-stream (the source
    /// yielded no full header) ends the relay with nothing written; a header
    /// is decoded, paced, re-encoded per policy, and ordered forwarded.
    pub fn on_header(&mut self, ev: HeaderEvent, elapsed_micros: u64) -> (a: RelayAction)
        requires
            !old(self).done,
            ev matches HeaderEvent::Bytes(b) ==> b@.len() == 12,
        ensures
            ev is EndOfStream ==> (a is Stop && final(self).done && final(self).pacer == old(
                self,
            ).pacer),
            ev matches HeaderEvent::Bytes(b) ==> ({
                let h = spec_decode(b@);
                &&& !final(self).done
                &&& final(self).pacer == spec_step(old(self).pacer, h.pts, h.is_config)
                &&& (a matches RelayAction::Forward { wait_micros, pts, prefix, header, payload_size }
                    && wait_micros == spec_wait(old(self).pacer, h.pts, h.is_config, elapsed_micros)
                    && pts == h.pts && prefix@ == spec_frame_prefix(old(self).framing) && header@
                    == spec_out_header(b@, old(self).reencode) && payload_size == h.payload_size)
            }),
            final(self).reencode == old(self).reencode,
            final(self).framing == old(self).framing,
            final(self).pacer.mode == old(self).pacer.mode,
    {
        match ev {
            HeaderEvent::EndOfStream => {
                self.done = true;
                RelayAction::Stop
            },
            HeaderEvent::Bytes(b) => {
                let ghost orig: Seq<u8> = b@;
                let mut out = b;
                let h: MetaHeader = match decode(&out) {
                    Ok(h) => h,
                    Err(_) => {
                        proof {
                            assert(false);
                        }
                        return RelayAction::Stop;
                    },
                };
                let wait_micros: u64 = self.pacer.wait_micros(h.pts, h.is_config, elapsed_micros);
                if self.reencode {
                    reencode_header(&mut out);
                }
                let prefix: Vec<u8> = match self.framing {
                    Framing::EndpointHandshake => Vec::new(),
                    Framing::RawChannel => channel_prefix(),
                };
                proof {
                    assert(out@ =~= spec_out_header(orig, self.reencode));
                }
                RelayAction::Forward {
                    wait_micros,
                    pts: h.pts,
                    prefix,
                    header: out,
                    payload_size: h.payload_size,
                }
            },
        }
    }

    /// Decide after the payload copy: the stream goes on only when every
    /// declared byte was copied; a short copy ends the relay, with no paced
    /// attempt for a further packet.
    pub fn on_payload_copied(&mut self, copied: u64, declared: u32) -> (more: bool)
        requires
            !old(self).done,
            copied <= declared as u64,
        ensures
            more == (copied == declared as u64),
            final(self).done == !more,
            final(self).pacer == old(self).pacer,
            final(self).reencode == old(self).reencode,
            final(self).framing == old(self).framing,
    {
        if copied < declared as u64 {
            self.done = true;
            false
        } else {
            true
        }
    }

    /// Whether the relay has ended.
    pub fn is_done(&self) -> (d: bool)
        ensures
            d == self.done,
    {
        self.done
    }
}

} // verus!
