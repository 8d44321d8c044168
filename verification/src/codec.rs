//! Mu-law (PCMU) companding between 16-bit linear PCM and 8-bit samples.
//!
//! A sample is coded as sign, segment and mantissa. Its magnitude is
//! clipped to 32635 and biased by 132; the segment `e` is the one with
//! `128 * 2^e <= biased < 256 * 2^e`, the mantissa the four bits below the
//! leading one, and the code byte is the complement of the three fields
//! packed together. Decoding gives the midpoint of the quantization
//! interval, so the transform is lossy by at most half a step, or by less
//! than one step where the magnitude was clipped.
//!
//! The definitions below write the powers of two out case by case, so
//! that they multiply and divide by literals only.

use vstd::prelude::*;

verus! {

/// Bias added to a magnitude before it is quantized.
pub const MULAW_BIAS: u32 = 0x84;

/// Largest magnitude that is coded without clipping.
pub const MULAW_CLIP: u32 = 32635;

/// Absolute value of a sample.
pub open spec fn magnitude(sample: i16) -> int {
    if sample < 0 {
        -(sample as int)
    } else {
        sample as int
    }
}

/// The clipped and biased magnitude of a sample, between 132 and 32767.
pub open spec fn biased(sample: i16) -> int {
    if magnitude(sample) > MULAW_CLIP {
        MULAW_CLIP + MULAW_BIAS
    } else {
        magnitude(sample) + MULAW_BIAS
    }
}

/// `x` times two to the power `e`, for the eight segments.
pub open spec fn scaled_up(x: int, e: int) -> int {
    if e <= 0 {
        x
    } else if e == 1 {
        x * 2
    } else if e == 2 {
        x * 4
    } else if e == 3 {
        x * 8
    } else if e == 4 {
        x * 16
    } else if e == 5 {
        x * 32
    } else if e == 6 {
        x * 64
    } else {
        x * 128
    }
}

/// `x` divided by two to the power `e`, rounded down, for the eight
/// segments.
pub open spec fn scaled_down(x: int, e: int) -> int {
    if e <= 0 {
        x
    } else if e == 1 {
        x / 2
    } else if e == 2 {
        x / 4
    } else if e == 3 {
        x / 8
    } else if e == 4 {
        x / 16
    } else if e == 5 {
        x / 32
    } else if e == 6 {
        x / 64
    } else {
        x / 128
    }
}

/// Quantization step of segment `e`: eight times two to the power `e`.
pub open spec fn step(e: int) -> int {
    scaled_up(8, e)
}

/// Segment of a biased magnitude: the `e` with
/// `128 * 2^e <= b < 256 * 2^e`.
pub open spec fn segment(b: int) -> int {
    if b < 0x100 {
        0
    } else if b < 0x200 {
        1
    } else if b < 0x400 {
        2
    } else if b < 0x800 {
        3
    } else if b < 0x1000 {
        4
    } else if b < 0x2000 {
        5
    } else if b < 0x4000 {
        6
    } else {
        7
    }
}

/// Mantissa of a biased magnitude within its segment: the number of whole
/// steps in it, less the sixteen that the segment starts at.
pub open spec fn mantissa(b: int) -> int {
    scaled_down(b / 8, segment(b)) % 16
}

/// The mu-law code of a sample.
pub open spec fn encoded(sample: i16) -> u8 {
    let sign: int = if sample < 0 {
        128
    } else {
        0
    };
    let b = biased(sample);
    (255 - (sign + segment(b) * 16 + mantissa(b))) as u8
}

/// The linear sample that a mu-law code stands for.
pub open spec fn decoded(code: u8) -> i16 {
    let fields = 255 - code;
    let e = (fields / 16) % 8;
    let m = fields % 16;
    let mag = scaled_up(8 * m + MULAW_BIAS, e) - MULAW_BIAS;
    if fields >= 128 {
        (-mag) as i16
    } else {
        mag as i16
    }
}

proof fn lemma_shift_right(b: u32, sh: u32)
    requires
        3 <= sh <= 10,
    ensures
        (b >> sh) == scaled_down(b as int / 8, sh - 3),
{
    if sh == 3 {
        assert(b >> sh == b / 8) by (bit_vector)
            requires
                sh == 3u32,
        ;
    } else if sh == 4 {
        assert(b >> sh == (b / 8) / 2) by (bit_vector)
            requires
                sh == 4u32,
        ;
    } else if sh == 5 {
        assert(b >> sh == (b / 8) / 4) by (bit_vector)
            requires
                sh == 5u32,
        ;
    } else if sh == 6 {
        assert(b >> sh == (b / 8) / 8) by (bit_vector)
            requires
                sh == 6u32,
        ;
    } else if sh == 7 {
        assert(b >> sh == (b / 8) / 16) by (bit_vector)
            requires
                sh == 7u32,
        ;
    } else if sh == 8 {
        assert(b >> sh == (b / 8) / 32) by (bit_vector)
            requires
                sh == 8u32,
        ;
    } else if sh == 9 {
        assert(b >> sh == (b / 8) / 64) by (bit_vector)
            requires
                sh == 9u32,
        ;
    } else {
        assert(b >> sh == (b / 8) / 128) by (bit_vector)
            requires
                sh == 10u32,
        ;
    }
}

proof fn lemma_shift_left(x: u32, e: u32)
    requires
        x < 256,
        e < 8,
    ensures
        (x << e) == scaled_up(x as int, e as int),
{
    if e == 0 {
        assert(x << e == x) by (bit_vector)
            requires
                e == 0u32,
                x < 256,
        ;
    } else if e == 1 {
        assert(x << e == x * 2) by (bit_vector)
            requires
                e == 1u32,
                x < 256,
        ;
    } else if e == 2 {
        assert(x << e == x * 4) by (bit_vector)
            requires
                e == 2u32,
                x < 256,
        ;
    } else if e == 3 {
        assert(x << e == x * 8) by (bit_vector)
            requires
                e == 3u32,
                x < 256,
        ;
    } else if e == 4 {
        assert(x << e == x * 16) by (bit_vector)
            requires
                e == 4u32,
                x < 256,
        ;
    } else if e == 5 {
        assert(x << e == x * 32) by (bit_vector)
            requires
                e == 5u32,
                x < 256,
        ;
    } else if e == 6 {
        assert(x << e == x * 64) by (bit_vector)
            requires
                e == 6u32,
                x < 256,
        ;
    } else {
        assert(x << e == x * 128) by (bit_vector)
            requires
                e == 7u32,
                x < 256,
        ;
    }
}

/// Segment of a biased magnitude.
fn segment_of(b: u32) -> (e: u32)
    ensures
        e == segment(b as int),
{
    if b < 0x100 {
        0
    } else if b < 0x200 {
        1
    } else if b < 0x400 {
        2
    } else if b < 0x800 {
        3
    } else if b < 0x1000 {
        4
    } else if b < 0x2000 {
        5
    } else if b < 0x4000 {
        6
    } else {
        7
    }
}

/// Encodes one linear sample as mu-law.
pub fn pcm_to_mulaw(sample: i16) -> (code: u8)
    ensures
        code == encoded(sample),
{
    let wide: i32 = sample as i32;
    let sign: u32 = if wide < 0 {
        0x80
    } else {
        0
    };
    let mag: u32 = if wide < 0 {
        (-wide) as u32
    } else {
        wide as u32
    };
    let clipped: u32 = if mag > MULAW_CLIP {
        MULAW_CLIP
    } else {
        mag
    };
    let b: u32 = clipped + MULAW_BIAS;
    let e: u32 = segment_of(b);
    let sh: u32 = e + 3;
    let q: u32 = b >> sh;
    let m: u32 = q & 0x0f;
    let fields: u32 = sign | (e << 4) | m;
    proof {
        lemma_shift_right(b, sh);
        assert(q & 0x0f == q % 16) by (bit_vector);
        assert((sign | (e << 4) | m) == sign + e * 16 + m) by (bit_vector)
            requires
                sign == 0 || sign == 0x80,
                e < 8,
                m < 16,
        ;
    }
    (255 - fields) as u8
}

/// Decodes one mu-law code to a linear sample.
pub fn mulaw_to_pcm(code: u8) -> (sample: i16)
    ensures
        sample == decoded(code),
{
    let fields: u32 = 255 - (code as u32);
    let e: u32 = (fields >> 4) & 0x07;
    let m: u32 = fields & 0x0f;
    proof {
        assert((fields >> 4) & 0x07 == (fields / 16) % 8) by (bit_vector);
        assert(fields & 0x0f == fields % 16) by (bit_vector);
        assert(m << 3 == m * 8) by (bit_vector)
            requires
                m < 16,
        ;
    }
    let x: u32 = (m << 3) + MULAW_BIAS;
    proof {
        lemma_shift_left(x, e);
    }
    let mag: u32 = (x << e) - MULAW_BIAS;
    if fields >= 128 {
        -(mag as i32) as i16
    } else {
        mag as i16
    }
}

/// The mu-law codes of a block of samples, index by index.
pub open spec fn encoded_frame(pcm: Seq<i16>) -> Seq<u8> {
    Seq::new(pcm.len(), |i: int| encoded(pcm[i]))
}

/// The linear samples of a block of mu-law codes, index by index.
pub open spec fn decoded_frame(data: Seq<u8>) -> Seq<i16> {
    Seq::new(data.len(), |i: int| decoded(data[i]))
}

/// Encodes a block of linear samples.
pub fn encode_frame(pcm: &[i16]) -> (data: Vec<u8>)
    ensures
        data@ == encoded_frame(pcm@),
{
    let mut data: Vec<u8> = Vec::new();
    let mut i: usize = 0;
    while i < pcm.len()
        invariant
            i <= pcm.len(),
            data@ == encoded_frame(pcm@).take(i as int),
        decreases pcm.len() - i,
    {
        data.push(pcm_to_mulaw(pcm[i]));
        i += 1;
    }
    data
}

/// Decodes a block of mu-law codes.
pub fn decode_frame(data: &[u8]) -> (pcm: Vec<i16>)
    ensures
        pcm@ == decoded_frame(data@),
{
    let mut pcm: Vec<i16> = Vec::new();
    let mut i: usize = 0;
    while i < data.len()
        invariant
            i <= data.len(),
            pcm@ == decoded_frame(data@).take(i as int),
        decreases data.len() - i,
    {
        pcm.push(mulaw_to_pcm(data[i]));
        i += 1;
    }
    pcm
}

/// Distance between two samples.
pub open spec fn distance(a: i16, b: i16) -> int {
    if a < b {
        b - a
    } else {
        a - b
    }
}

/// The midpoint that a biased magnitude's segment and mantissa stand for
/// lies within half a step of it.
proof fn lemma_midpoint(b: int)
    requires
        132 <= b <= 32767,
    ensures
        0 <= mantissa(b) < 16,
        0 <= segment(b) < 8,
        ({
            let r = scaled_up(8 * mantissa(b) + 132, segment(b));
            &&& -step(segment(b)) < 2 * (r - b) <= step(segment(b))
            &&& 132 <= r <= 32256
        }),
{
}

/// Coding a sample and decoding it again changes it by no more than the
/// quantization step of its segment, and by no more than half that step
/// where its magnitude is not clipped.
pub proof fn lemma_roundtrip_error(sample: i16)
    ensures
        distance(decoded(encoded(sample)), sample) <= step(segment(biased(sample))),
        magnitude(sample) <= MULAW_CLIP ==> 2 * distance(decoded(encoded(sample)), sample) <= step(
            segment(biased(sample)),
        ),
{
    lemma_midpoint(biased(sample));
}

} // verus!
