//! The destination-side transport: the one-time kymux handshake (endpoint
//! identifier, sync byte, codec announcement) modelled as a state machine
//! whose contracts force the wire order, and the channel-identifier prefix
//! of the raw channel-multiplexed framing.

use vstd::prelude::*;

use crate::addr::{spec_endpoint_bound, EndpointWidth};
use crate::bytes::{be_bytes16, be_bytes64, be_u16_bytes, push_be_u64};

verus! {

/// Where the handshake stands.
#[derive(Clone, Copy, Debug, PartialEq, Eq, Structural)]
pub enum SinkPhase {
    /// Nothing sent yet; the endpoint identifier goes first.
    SendEndpointId,
    /// Endpoint identifier written; one sync byte must come back.
    AwaitSyncByte,
    /// Sync byte consumed; the codec announcement goes next.
    SendCodecTag,
    /// Handshake over; data packets may flow.
    Streaming,
}

/// One observable handshake action on the destination connection.
#[derive(Clone, Copy, Debug, PartialEq, Eq, Structural)]
pub enum HandshakeStep {
    WriteEndpointId,
    ReadSyncByte,
    WriteCodecTag,
}

/// The handshake transition relation: which step is allowed in which phase,
/// and the phase it leads to.
pub open spec fn phase_after(p: SinkPhase, s: HandshakeStep) -> Option<SinkPhase> {
    match (p, s) {
        (SinkPhase::SendEndpointId, HandshakeStep::WriteEndpointId) => Option::Some(
            SinkPhase::AwaitSyncByte,
        ),
        (SinkPhase::AwaitSyncByte, HandshakeStep::ReadSyncByte) => Option::Some(
            SinkPhase::SendCodecTag,
        ),
        (SinkPhase::SendCodecTag, HandshakeStep::WriteCodecTag) => Option::Some(
            SinkPhase::Streaming,
        ),
        _ => Option::None,
    }
}

/// Run a sequence of steps from phase `p`; `None` when some step was out
/// of order.
pub open spec fn run_steps(p: SinkPhase, t: Seq<HandshakeStep>) -> Option<SinkPhase>
    decreases t.len(),
{
    if t.len() == 0 {
        Option::Some(p)
    } else {
        match phase_after(p, t[0]) {
            Option::None => Option::None,
            Option::Some(q) => run_steps(q, t.subrange(1, t.len() as int)),
        }
    }
}

/// The only step sequence that takes a fresh connection into streaming is
/// the exact order: endpoint identifier out, sync byte back, codec
/// announcement out. In particular the destination observes the endpoint
/// identifier, then sends its one byte, before any codec or data bytes.
pub proof fn lemma_handshake_order(t: Seq<HandshakeStep>)
    requires
        run_steps(SinkPhase::SendEndpointId, t) == Option::Some(SinkPhase::Streaming),
    ensures
        t =~= seq![
            HandshakeStep::WriteEndpointId,
            HandshakeStep::ReadSyncByte,
            HandshakeStep::WriteCodecTag,
        ],
{
    assert(t.len() > 0);
    assert(phase_after(SinkPhase::SendEndpointId, t[0]) is Some);
    assert(t[0] == HandshakeStep::WriteEndpointId);
    let t1 = t.subrange(1, t.len() as int);
    assert(run_steps(SinkPhase::AwaitSyncByte, t1) == Option::Some(SinkPhase::Streaming));
    assert(t1.len() > 0);
    assert(t1[0] == HandshakeStep::ReadSyncByte);
    let t2 = t1.subrange(1, t1.len() as int);
    assert(run_steps(SinkPhase::SendCodecTag, t2) == Option::Some(SinkPhase::Streaming));
    assert(t2.len() > 0);
    assert(t2[0] == HandshakeStep::WriteCodecTag);
    let t3 = t2.subrange(1, t2.len() as int);
    assert(run_steps(SinkPhase::Streaming, t3) == Option::Some(SinkPhase::Streaming));
    if t3.len() > 0 {
        assert(phase_after(SinkPhase::Streaming, t3[0]) is None);
    }
    assert(t3.len() == 0);
    assert(t.len() == 3);
    assert(t[1] == t1[0]);
    assert(t[2] == t2[0]);
}

/// The codec announcement: the ASCII tag, zero-padded to `total` bytes.
pub open spec fn spec_codec_packet(tag: Seq<u8>, total: int) -> Seq<u8> {
    Seq::new(
        total as nat,
        |i: int|
            if i < tag.len() {
                tag[i]
            } else {
                0
            },
    )
}

/// Build the codec announcement block: the tag followed by zero padding.
pub fn codec_packet(tag: &Vec<u8>, total: usize) -> (r: Vec<u8>)
    requires
        tag@.len() <= total,
    ensures
        r@ == spec_codec_packet(tag@, total as int),
{
    let mut out: Vec<u8> = Vec::new();
    let mut i: usize = 0;
    while i < total
        invariant
            i <= total,
            tag@.len() <= total,
            out@.len() == i,
            forall|j: int| 0 <= j < i && j < tag@.len() ==> out@[j] == tag@[j],
            forall|j: int| tag@.len() <= j < i ==> out@[j] == 0,
        decreases total - i,
    {
        if i < tag.len() {
            let c: u8 = tag[i];
            out.push(c);
        } else {
            out.push(0);
        }
        i = i + 1;
    }
    assert(out@ =~= spec_codec_packet(tag@, total as int));
    out
}

/// The fixed 4-byte channel-identifier prefix (channel 0) written before
/// each header on a raw channel-multiplexed link.
pub open spec fn spec_channel_prefix() -> Seq<u8> {
    seq![0u8, 0u8, 0u8, 0u8]
}

/// Build the channel-0 prefix of the raw framing.
pub fn channel_prefix() -> (r: Vec<u8>)
    ensures
        r@ == spec_channel_prefix(),
{
    let mut out: Vec<u8> = Vec::new();
    out.push(0);
    out.push(0);
    out.push(0);
    out.push(0);
    assert(out@ =~= spec_channel_prefix());
    out
}

/// The wire bytes of an endpoint identifier: 2 or 8 big-endian bytes,
/// by the destination's identifier width.
pub open spec fn spec_endpoint_bytes(id: u64, width: EndpointWidth) -> Seq<u8> {
    match width {
        EndpointWidth::W16 => be_bytes16(id as u16),
        EndpointWidth::W64 => be_bytes64(id),
    }
}

/// The handshake side of an endpoint-addressed kymux link.
#[derive(Clone, Debug)]
pub struct KymuxHandshake {
    pub phase: SinkPhase,
    pub endpoint_id: u64,
    pub width: EndpointWidth,
    /// ASCII codec tag, e.g. `h264` or `opus`.
    pub codec_tag: Vec<u8>,
    /// Total size of the zero-padded codec announcement block.
    pub announce_len: usize,
}

impl KymuxHandshake {
    /// The identifier fits its width and the tag fits its block.
    pub open spec fn wf(self) -> bool {
        &&& self.endpoint_id <= spec_endpoint_bound(self.width)
        &&& self.codec_tag@.len() <= self.announce_len
    }

    /// A handshake that has sent nothing yet.
    pub fn new(
        endpoint_id: u64,
        width: EndpointWidth,
        codec_tag: Vec<u8>,
        announce_len: usize,
    ) -> (s: KymuxHandshake)
        requires
            endpoint_id <= spec_endpoint_bound(width),
            codec_tag@.len() <= announce_len,
        ensures
            s.phase == SinkPhase::SendEndpointId,
            s.endpoint_id == endpoint_id,
            s.width == width,
            s.codec_tag == codec_tag,
            s.announce_len == announce_len,
            s.wf(),
    {
        KymuxHandshake { phase: SinkPhase::SendEndpointId, endpoint_id, width, codec_tag, announce_len }
    }

    /// First handshake write: the big-endian endpoint identifier.
    pub fn endpoint_id_bytes(&mut self) -> (r: Vec<u8>)
        requires
            old(self).phase == SinkPhase::SendEndpointId,
            old(self).wf(),
        ensures
            r@ == spec_endpoint_bytes(old(self).endpoint_id, old(self).width),
            final(self).phase == SinkPhase::AwaitSyncByte,
            phase_after(old(self).phase, HandshakeStep::WriteEndpointId) == Option::Some(
                final(self).phase,
            ),
            unchanged_but_phase(*old(self), *final(self)),
    {
        self.phase = SinkPhase::AwaitSyncByte;
        match self.width {
            EndpointWidth::W16 => be_u16_bytes(self.endpoint_id as u16),
            EndpointWidth::W64 => {
                let mut out: Vec<u8> = Vec::new();
                push_be_u64(&mut out, self.endpoint_id);
                out
            },
        }
    }

    /// The destination answered with its one sync byte; the byte itself is
    /// read and discarded by the caller.
    pub fn sync_byte_received(&mut self)
        requires
            old(self).phase == SinkPhase::AwaitSyncByte,
        ensures
            final(self).phase == SinkPhase::SendCodecTag,
            phase_after(old(self).phase, HandshakeStep::ReadSyncByte) == Option::Some(
                final(self).phase,
            ),
            unchanged_but_phase(*old(self), *final(self)),
    {
        self.phase = SinkPhase::SendCodecTag;
    }

    /// Last handshake write: the zero-padded codec announcement.
    pub fn codec_announcement(&mut self) -> (r: Vec<u8>)
        requires
            old(self).phase == SinkPhase::SendCodecTag,
            old(self).wf(),
        ensures
            r@ == spec_codec_packet(old(self).codec_tag@, old(self).announce_len as int),
            final(self).phase == SinkPhase::Streaming,
            phase_after(old(self).phase, HandshakeStep::WriteCodecTag) == Option::Some(
                final(self).phase,
            ),
            unchanged_but_phase(*old(self), *final(self)),
    {
        self.phase = SinkPhase::Streaming;
        codec_packet(&self.codec_tag, self.announce_len)
    }

    /// Whether the handshake is over and data packets may flow.
    pub fn ready_for_data(&self) -> (r: bool)
        ensures
            r == (self.phase is Streaming),
    {
        match self.phase {
            SinkPhase::Streaming => true,
            _ => false,
        }
    }
}

/// Everything but the phase is the same in both states.
pub open spec fn unchanged_but_phase(a: KymuxHandshake, b: KymuxHandshake) -> bool {
    &&& b.endpoint_id == a.endpoint_id
    &&& b.width == a.width
    &&& b.codec_tag == a.codec_tag
    &&& b.announce_len == a.announce_len
}

} // verus!
