//! Volume stage: scales interleaved little-endian 16-bit samples by a
//! fixed-point gain.
//!
//! The gain is carried in thousandths (1000 = unit gain), so scaling is
//! exact integer arithmetic: each sample's magnitude is multiplied by the
//! gain and divided by 1000, truncating toward zero, then clamped to the
//! 16-bit range. A trailing byte that completes no sample pair passes
//! through unchanged.

use vstd::arithmetic::div_mod::{
    lemma_div_by_multiple, lemma_div_is_ordered, lemma_fundamental_div_mod,
    lemma_fundamental_div_mod_converse_div, lemma_fundamental_div_mod_converse_mod,
};
use vstd::prelude::*;

verus! {

/// Unit gain in thousandths.
pub const UNIT_GAIN_MILLI: u32 = 1000;

/// The signed 16-bit sample whose little-endian bytes are `lo`, `hi`.
pub open spec fn sample_val(lo: u8, hi: u8) -> int {
    let u = lo as int + 256 * (hi as int);
    if u < 32768 {
        u
    } else {
        u - 65536
    }
}

/// Two's-complement unsigned image of a 16-bit sample value.
pub open spec fn to_unsigned16(v: int) -> int {
    if v >= 0 {
        v
    } else {
        v + 65536
    }
}

/// Low little-endian byte of a 16-bit sample value.
pub open spec fn sample_lo(v: int) -> u8 {
    (to_unsigned16(v) % 256) as u8
}

/// High little-endian byte of a 16-bit sample value.
pub open spec fn sample_hi(v: int) -> u8 {
    (to_unsigned16(v) / 256) as u8
}

/// A sample scaled by a gain in thousandths: magnitude multiplied by the
/// gain, divided by 1000 truncating toward zero, clamped to the 16-bit
/// range.
pub open spec fn scale_sample(s: int, gain_milli: int) -> int {
    if s >= 0 {
        let q = (s * gain_milli) / 1000;
        if q > 32767 {
            32767
        } else {
            q
        }
    } else {
        let q = ((-s) * gain_milli) / 1000;
        if q > 32768 {
            -32768
        } else {
            -q
        }
    }
}

/// Byte `i` of a scaled buffer: the low or high byte of the scaled sample
/// whose pair contains position `i`, or the byte itself when the buffer
/// ends before the pair is complete.
pub open spec fn scaled_byte_at(bytes: Seq<u8>, gain_milli: int, i: int) -> u8 {
    let p = 2 * (i / 2);
    if p + 1 < bytes.len() {
        let t = scale_sample(sample_val(bytes[p], bytes[p + 1]), gain_milli);
        if i % 2 == 0 {
            sample_lo(t)
        } else {
            sample_hi(t)
        }
    } else {
        bytes[i]
    }
}

/// A whole buffer of interleaved little-endian 16-bit samples scaled by a
/// gain in thousandths.
pub open spec fn scale_bytes(bytes: Seq<u8>, gain_milli: int) -> Seq<u8> {
    Seq::new(bytes.len(), |i: int| scaled_byte_at(bytes, gain_milli, i))
}

/// Reads the sample stored at bytes `lo`, `hi` (little-endian).
pub fn decode_sample(lo: u8, hi: u8) -> (s: i16)
    ensures
        s as int == sample_val(lo, hi),
{
    let u: u16 = lo as u16 + (hi as u16) * 256;
    if u < 32768 {
        u as i16
    } else {
        ((u as i32) - 65536) as i16
    }
}

/// Writes a sample back to its little-endian byte pair.
pub fn encode_sample(s: i16) -> (r: (u8, u8))
    ensures
        r.0 == sample_lo(s as int),
        r.1 == sample_hi(s as int),
{
    let u: u32 = if s >= 0 {
        s as u32
    } else {
        ((s as i32) + 65536) as u32
    };
    proof {
        assert(u as int == to_unsigned16(s as int));
        assert(u < 65536);
        lemma_div_is_ordered(u as int, 65535, 256);
    }
    ((u % 256) as u8, (u / 256) as u8)
}

/// Scales one sample by a gain in thousandths, truncating toward zero and
/// clamping to the 16-bit range.
pub fn apply_gain(s: i16, gain_milli: u32) -> (r: i16)
    ensures
        r as int == scale_sample(s as int, gain_milli as int),
{
    if s >= 0 {
        proof {
            assert((s as int) * (gain_milli as int) <= 32767 * 0xffff_ffff) by (nonlinear_arith)
                requires
                    0 <= s as int <= 32767,
                    0 <= gain_milli as int <= 0xffff_ffff,
            ;
            assert((s as int) * (gain_milli as int) >= 0) by (nonlinear_arith)
                requires
                    s as int >= 0,
                    gain_milli as int >= 0,
            ;
        }
        let m: u64 = (s as u64) * (gain_milli as u64) / 1000;
        if m > 32767 {
            32767i16
        } else {
            m as i16
        }
    } else {
        let neg: i32 = -(s as i32);
        proof {
            assert((neg as int) * (gain_milli as int) <= 32768 * 0xffff_ffff) by (nonlinear_arith)
                requires
                    0 <= neg as int <= 32768,
                    0 <= gain_milli as int <= 0xffff_ffff,
            ;
            assert((neg as int) * (gain_milli as int) >= 0) by (nonlinear_arith)
                requires
                    neg as int >= 0,
                    gain_milli as int >= 0,
            ;
        }
        let q: u64 = (neg as u64) * (gain_milli as u64) / 1000;
        if q >= 32768 {
            -32768i16
        } else {
            -(q as i16)
        }
    }
}

/// Scales the byte range `[start, end)` of a PCM buffer, producing the
/// scaled bytes; the buffer itself is left unchanged.
pub fn scale_range(data: &Vec<u8>, start: usize, end: usize, gain_milli: u32) -> (out: Vec<u8>)
    requires
        start <= end <= data@.len(),
    ensures
        out@ == scale_bytes(data@.subrange(start as int, end as int), gain_milli as int),
{
    let ghost sub = data@.subrange(start as int, end as int);
    let mut out: Vec<u8> = Vec::new();
    let mut i: usize = start;
    while end - i >= 2
        invariant
            start <= i <= end <= data@.len(),
            (i - start) % 2 == 0,
            sub == data@.subrange(start as int, end as int),
            out@.len() == i - start,
            forall|j: int|
                0 <= j < i - start ==> out@[j] == scaled_byte_at(sub, gain_milli as int, j),
        decreases end - i,
    {
        let s = decode_sample(data[i], data[i + 1]);
        let t = apply_gain(s, gain_milli);
        let (lo, hi) = encode_sample(t);
        let ghost k = i - start;
        out.push(lo);
        out.push(hi);
        proof {
            assert(k % 2 == 0);
            assert(2 * (k / 2) == k);
            assert(2 * ((k + 1) / 2) == k);
            assert(sub[k] == data@[i as int] && sub[k + 1] == data@[i + 1]);
            assert(out@[k] == scaled_byte_at(sub, gain_milli as int, k));
            assert(out@[k + 1] == scaled_byte_at(sub, gain_milli as int, k + 1));
        }
        i = i + 2;
    }
    if i < end {
        let ghost k = i - start;
        out.push(data[i]);
        proof {
            assert(k % 2 == 0);
            assert(2 * (k / 2) == k);
            assert(out@[k] == scaled_byte_at(sub, gain_milli as int, k));
        }
    }
    proof {
        assert(out@ =~= scale_bytes(sub, gain_milli as int));
    }
    out
}

/// A sample value read from a byte pair always lies in the 16-bit range.
pub proof fn lemma_sample_val_in_range(lo: u8, hi: u8)
    ensures
        -32768 <= sample_val(lo, hi) <= 32767,
{
}

/// Encoding a 16-bit sample value and reading it back yields the value.
pub proof fn lemma_sample_round_trip(v: int)
    requires
        -32768 <= v <= 32767,
    ensures
        sample_val(sample_lo(v), sample_hi(v)) == v,
{
    let u = to_unsigned16(v);
    lemma_fundamental_div_mod(u, 256);
    lemma_div_is_ordered(u, 65535, 256);
    assert(sample_lo(v) as int + 256 * (sample_hi(v) as int) == u);
}

/// Reading a byte pair and encoding the value back yields the same bytes.
pub proof fn lemma_byte_round_trip(lo: u8, hi: u8)
    ensures
        sample_lo(sample_val(lo, hi)) == lo,
        sample_hi(sample_val(lo, hi)) == hi,
{
    let v = sample_val(lo, hi);
    assert(to_unsigned16(v) == lo as int + 256 * (hi as int));
    lemma_fundamental_div_mod_converse_div(to_unsigned16(v), 256, hi as int, lo as int);
    lemma_fundamental_div_mod_converse_mod(to_unsigned16(v), 256, hi as int, lo as int);
}

/// Unit gain is exact: scaling a 16-bit sample value by 1000 thousandths
/// neither truncates nor clamps.
pub proof fn lemma_unit_gain_sample(s: int)
    requires
        -32768 <= s <= 32767,
    ensures
        scale_sample(s, UNIT_GAIN_MILLI as int) == s,
{
    if s >= 0 {
        lemma_div_by_multiple(s, 1000);
        assert((s * 1000) / 1000 == s);
    } else {
        lemma_div_by_multiple(-s, 1000);
        assert(((-s) * 1000) / 1000 == -s);
    }
}

/// Unit gain leaves every byte of a PCM buffer unchanged.
pub proof fn lemma_unit_gain_bytes(bytes: Seq<u8>)
    ensures
        scale_bytes(bytes, UNIT_GAIN_MILLI as int) == bytes,
{
    assert forall|i: int| 0 <= i < bytes.len() implies scaled_byte_at(
        bytes,
        UNIT_GAIN_MILLI as int,
        i,
    ) == bytes[i] by {
        let p = 2 * (i / 2);
        if p + 1 < bytes.len() {
            let v = sample_val(bytes[p], bytes[p + 1]);
            lemma_sample_val_in_range(bytes[p], bytes[p + 1]);
            lemma_unit_gain_sample(v);
            lemma_byte_round_trip(bytes[p], bytes[p + 1]);
            assert(i == p || i == p + 1);
        }
    }
    assert(scale_bytes(bytes, UNIT_GAIN_MILLI as int) =~= bytes);
}

} // verus!
