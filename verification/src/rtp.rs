//! RTP packet framing: a fixed twelve-byte header followed by the payload.
//!
//! Header layout: byte 0 is `0x80` (version 2, no padding, no extension, no
//! CSRC entries); byte 1 is the payload type in its low seven bits with the
//! marker bit clear; bytes 2-3 hold the sequence number, bytes 4-7 the
//! timestamp and bytes 8-11 the SSRC, each big-endian.

use crate::codec::{encode_frame, encoded_frame};
use vstd::prelude::*;
use vstd::slice::slice_subrange;

verus! {

/// Payload type of mu-law audio (PCMU).
pub const PAYLOAD_TYPE_PCMU: u8 = 0;

/// Length of the fixed RTP header in bytes.
pub const RTP_HEADER_LEN: usize = 12;

/// First header byte: version 2, no padding, no extension, no CSRC entries.
pub const RTP_VERSION_BYTE: u8 = 0x80;

/// Big-endian encoding of a 16-bit value.
pub open spec fn be16(v: u16) -> Seq<u8> {
    seq![(v / 256) as u8, (v % 256) as u8]
}

/// Big-endian encoding of a 32-bit value.
pub open spec fn be32(v: u32) -> Seq<u8> {
    seq![
        (v / 0x100_0000) as u8,
        ((v / 0x1_0000) % 256) as u8,
        ((v / 0x100) % 256) as u8,
        (v % 256) as u8,
    ]
}

/// The value whose big-endian encoding is `hi`, `lo`.
pub open spec fn from_be16(hi: u8, lo: u8) -> u16 {
    (hi as int * 256 + lo as int) as u16
}

/// The value whose big-endian encoding is `b0`, `b1`, `b2`, `b3`.
pub open spec fn from_be32(b0: u8, b1: u8, b2: u8, b3: u8) -> u32 {
    (b0 as int * 0x100_0000 + b1 as int * 0x1_0000 + b2 as int * 0x100 + b3 as int) as u32
}

/// The wire form of a packet: header, then the payload verbatim.
pub open spec fn framed(
    sequence: u16,
    timestamp: u32,
    ssrc: u32,
    payload_type: u8,
    payload: Seq<u8>,
) -> Seq<u8> {
    seq![RTP_VERSION_BYTE, (payload_type % 128) as u8] + be16(sequence) + be32(timestamp) + be32(
        ssrc,
    ) + payload
}

/// The fields of a received RTP packet.
#[derive(Debug)]
pub struct RtpPacket {
    /// Protocol version, the top two bits of the first byte.
    pub version: u8,
    /// Payload type, the low seven bits of the second byte.
    pub payload_type: u8,
    pub sequence: u16,
    pub timestamp: u32,
    pub ssrc: u32,
    pub payload: Vec<u8>,
}

/// Mathematical value of an [`RtpPacket`].
pub struct RtpPacketView {
    pub version: u8,
    pub payload_type: u8,
    pub sequence: u16,
    pub timestamp: u32,
    pub ssrc: u32,
    pub payload: Seq<u8>,
}

impl View for RtpPacket {
    type V = RtpPacketView;

    open spec fn view(&self) -> RtpPacketView {
        RtpPacketView {
            version: self.version,
            payload_type: self.payload_type,
            sequence: self.sequence,
            timestamp: self.timestamp,
            ssrc: self.ssrc,
            payload: self.payload@,
        }
    }
}

/// What a datagram holds when read as an RTP packet: nothing if it is
/// shorter than the header, else the header fields as they stand and all
/// that follows the header as payload.
pub open spec fn deframed(packet: Seq<u8>) -> Option<RtpPacketView> {
    if packet.len() < RTP_HEADER_LEN {
        None
    } else {
        Some(
            RtpPacketView {
                version: (packet[0] / 64) as u8,
                payload_type: (packet[1] % 128) as u8,
                sequence: from_be16(packet[2], packet[3]),
                timestamp: from_be32(packet[4], packet[5], packet[6], packet[7]),
                ssrc: from_be32(packet[8], packet[9], packet[10], packet[11]),
                payload: packet.skip(RTP_HEADER_LEN as int),
            },
        )
    }
}

fn put_be16(out: &mut Vec<u8>, v: u16)
    ensures
        final(out)@ == old(out)@ + be16(v),
{
    out.push((v / 256) as u8);
    out.push((v % 256) as u8);
}

fn put_be32(out: &mut Vec<u8>, v: u32)
    ensures
        final(out)@ == old(out)@ + be32(v),
{
    out.push((v / 0x100_0000) as u8);
    out.push(((v / 0x1_0000) % 256) as u8);
    out.push(((v / 0x100) % 256) as u8);
    out.push((v % 256) as u8);
}

fn get_be16(hi: u8, lo: u8) -> (v: u16)
    ensures
        v == from_be16(hi, lo),
{
    (hi as u16) * 256 + (lo as u16)
}

fn get_be32(b0: u8, b1: u8, b2: u8, b3: u8) -> (v: u32)
    ensures
        v == from_be32(b0, b1, b2, b3),
{
    (b0 as u32) * 0x100_0000 + (b1 as u32) * 0x1_0000 + (b2 as u32) * 0x100 + (b3 as u32)
}

/// Appends a copy of `bytes` to `out`.
pub fn append_bytes(out: &mut Vec<u8>, bytes: &[u8])
    ensures
        final(out)@ == old(out)@ + bytes@,
{
    let mut i: usize = 0;
    while i < bytes.len()
        invariant
            i <= bytes.len(),
            out@ == old(out)@ + bytes@.take(i as int),
        decreases bytes.len() - i,
    {
        out.push(bytes[i]);
        i += 1;
    }
}

/// Builds the wire form of one RTP packet.
pub fn frame(sequence: u16, timestamp: u32, ssrc: u32, payload_type: u8, payload: &[u8]) -> (packet:
    Vec<u8>)
    ensures
        packet@ == framed(sequence, timestamp, ssrc, payload_type, payload@),
{
    let mut packet: Vec<u8> = Vec::new();
    packet.push(RTP_VERSION_BYTE);
    assert(payload_type & 0x7f == payload_type % 128) by (bit_vector);
    packet.push(payload_type & 0x7f);
    put_be16(&mut packet, sequence);
    put_be32(&mut packet, timestamp);
    put_be32(&mut packet, ssrc);
    append_bytes(&mut packet, payload);
    packet
}

/// Reads a datagram as an RTP packet. Only the length is checked: version
/// and payload type are handed to the caller as found.
pub fn deframe(packet: &[u8]) -> (r: Option<RtpPacket>)
    ensures
        match r {
            Some(p) => deframed(packet@) == Some(p@),
            None => deframed(packet@).is_none(),
        },
{
    if packet.len() < RTP_HEADER_LEN {
        return None;
    }
    let b0 = packet[0];
    let b1 = packet[1];
    assert(b0 >> 6 == b0 / 64) by (bit_vector);
    assert(b1 & 0x7f == b1 % 128) by (bit_vector);
    let mut payload: Vec<u8> = Vec::new();
    append_bytes(&mut payload, slice_subrange(packet, RTP_HEADER_LEN, packet.len()));
    Some(
        RtpPacket {
            version: b0 >> 6,
            payload_type: b1 & 0x7f,
            sequence: get_be16(packet[2], packet[3]),
            timestamp: get_be32(packet[4], packet[5], packet[6], packet[7]),
            ssrc: get_be32(packet[8], packet[9], packet[10], packet[11]),
            payload,
        },
    )
}

/// Deframing a framed packet gives back the version 2 and exactly the
/// sequence number, timestamp, SSRC and payload that were framed, and the
/// payload type reduced to its low seven bits: the payload type itself
/// wherever it is below 128.
pub proof fn lemma_deframe_frame(
    sequence: u16,
    timestamp: u32,
    ssrc: u32,
    payload_type: u8,
    payload: Seq<u8>,
)
    ensures
        deframed(framed(sequence, timestamp, ssrc, payload_type, payload)) == Some(
            RtpPacketView {
                version: 2,
                payload_type: (payload_type % 128) as u8,
                sequence,
                timestamp,
                ssrc,
                payload,
            },
        ),
        payload_type < 128 ==> deframed(framed(sequence, timestamp, ssrc, payload_type, payload))
            == Some(RtpPacketView { version: 2, payload_type, sequence, timestamp, ssrc, payload }),
{
    let packet = framed(sequence, timestamp, ssrc, payload_type, payload);
    assert(packet.skip(12) =~= payload);
    assert(from_be16(packet[2], packet[3]) == sequence);
}

/// The counters of the sending side of one RTP session.
#[derive(Debug)]
pub struct RtpSender {
    /// Sequence number of the next packet.
    pub sequence: u16,
    /// Timestamp of the next packet, in samples.
    pub timestamp: u32,
    /// Synchronization source identifier, fixed for the session.
    pub ssrc: u32,
}

impl RtpSender {
    /// A sender that starts at the given sequence number and timestamp.
    pub fn new(ssrc: u32, sequence: u16, timestamp: u32) -> (s: RtpSender)
        ensures
            s.ssrc == ssrc,
            s.sequence == sequence,
            s.timestamp == timestamp,
    {
        RtpSender { sequence, timestamp, ssrc }
    }

    /// Frames `payload`, which encodes `samples` samples, with the current
    /// counters, then advances the sequence number by one and the
    /// timestamp by `samples`. Both counters wrap at their bit width.
    pub fn next_packet(&mut self, payload_type: u8, payload: &[u8], samples: u32) -> (packet: Vec<
        u8,
    >)
        ensures
            packet@ == framed(
                old(self).sequence,
                old(self).timestamp,
                old(self).ssrc,
                payload_type,
                payload@,
            ),
            final(self).sequence == (old(self).sequence + 1) % 0x1_0000,
            final(self).timestamp == (old(self).timestamp + samples) % 0x1_0000_0000,
            final(self).ssrc == old(self).ssrc,
    {
        let packet = frame(self.sequence, self.timestamp, self.ssrc, payload_type, payload);
        self.sequence = self.sequence.wrapping_add(1);
        self.timestamp = self.timestamp.wrapping_add(samples);
        packet
    }

    /// Encodes a block of linear samples as mu-law and frames it as the
    /// next packet. The timestamp advances by the number of samples.
    pub fn send_pcm(&mut self, pcm: &[i16]) -> (packet: Vec<u8>)
        ensures
            packet@ == framed(
                old(self).sequence,
                old(self).timestamp,
                old(self).ssrc,
                PAYLOAD_TYPE_PCMU,
                encoded_frame(pcm@),
            ),
            final(self).sequence == (old(self).sequence + 1) % 0x1_0000,
            final(self).timestamp == (old(self).timestamp + pcm@.len()) % 0x1_0000_0000,
            final(self).ssrc == old(self).ssrc,
    {
        let payload = encode_frame(pcm);
        let count: u64 = pcm.len() as u64;
        let samples: u32 = (count % 0x1_0000_0000) as u32;
        self.next_packet(PAYLOAD_TYPE_PCMU, payload.as_slice(), samples)
    }
}

} // verus!
