//! Byte-level helpers shared by the framing and payload codecs: big-endian
//! reads through `byteorder`, UTF-8 string recovery, and byte comparisons.

use vstd::prelude::*;
use vstd::string::StringSliceAdditionalSpecFns;
use vstd::utf8::{decode_utf8, valid_utf8};

verus! {

broadcast use vstd::seq_lib::group_seq_lib_default, vstd::seq::group_seq_axioms;

/// The unsigned 32-bit value spelled by four bytes in big-endian order.
pub open spec fn be_u32_of(b: Seq<u8>) -> u32
    recommends
        b.len() == 4,
{
    (((b[0] as u32) << 24) | ((b[1] as u32) << 16) | ((b[2] as u32) << 8) | (b[3] as u32)) as u32
}

/// Relies on byteorder's `BigEndian::read_u32`: it returns
/// `u32::from_be_bytes` of the first four bytes and panics on fewer.
pub assume_specification[ <byteorder::BigEndian as byteorder::ByteOrder>::read_u32 ](
    buf: &[u8],
) -> (r: u32)
    requires
        buf@.len() >= 4,
    ensures
        r == be_u32_of(buf@.take(4)),
;

/// Reads a big-endian 32-bit integer from the start of `buf`.
pub fn read_be_u32(buf: &[u8]) -> (r: u32)
    requires
        buf@.len() >= 4,
    ensures
        r == be_u32_of(buf@.take(4)),
{
    <byteorder::BigEndian as byteorder::ByteOrder>::read_u32(buf)
}

/// The four bytes of `x` in big-endian order.
pub open spec fn spec_u32_to_be_bytes(x: u32) -> Seq<u8> {
    seq![(x >> 24) as u8, (x >> 16) as u8, (x >> 8) as u8, x as u8]
}

/// Writes `x` as four big-endian bytes.
pub fn u32_to_be_bytes(x: u32) -> (r: Vec<u8>)
    ensures
        r@ == spec_u32_to_be_bytes(x),
        r@.len() == 4,
        be_u32_of(r@) == x,
{
    let mut r: Vec<u8> = Vec::new();
    r.push((x >> 24) as u8);
    r.push((x >> 16) as u8);
    r.push((x >> 8) as u8);
    r.push(x as u8);
    proof {
        let b0 = r@[0];
        let b1 = r@[1];
        let b2 = r@[2];
        let b3 = r@[3];
        assert(b0 == (x >> 24) as u8 && b1 == (x >> 16) as u8 && b2 == (x >> 8) as u8 && b3 == (
        x as u8) ==> ((((b0 as u32) << 24) | ((b1 as u32) << 16) | ((b2 as u32) << 8) | (
        b3 as u32)) as u32) == x) by (bit_vector);
        assert(r@ =~= spec_u32_to_be_bytes(x));
    }
    r
}

/// The sign byte of a reading on the wire: 1 for negative, 0 otherwise.
pub open spec fn reading_sign(x: i64) -> u8 {
    if x < 0 {
        1
    } else {
        0
    }
}

/// The magnitude of a reading on the wire.
pub open spec fn reading_magnitude(x: i64) -> u64 {
    if x < 0 {
        (-(x as int)) as u64
    } else {
        x as u64
    }
}

/// A signed reading as nine bytes: a sign byte, then the magnitude in
/// little-endian order.
pub open spec fn spec_encode_reading(x: i64) -> Seq<u8> {
    seq![reading_sign(x)] + vstd::bytes::spec_u64_to_le_bytes(reading_magnitude(x))
}

/// The reading nine bytes spell, if they are a well-formed encoding: the
/// sign byte must be 0 or 1, a negative magnitude must be nonzero, and the
/// magnitude must fit the signed range.
pub open spec fn spec_decode_reading(b: Seq<u8>) -> Option<i64> {
    if b.len() != 9 {
        None
    } else {
        let m = vstd::bytes::spec_u64_from_le_bytes(b.skip(1));
        if b[0] == 0 {
            if m <= i64::MAX as u64 {
                Some(m as i64)
            } else {
                None
            }
        } else if b[0] == 1 {
            if 1 <= m && m <= 0x8000_0000_0000_0000u64 {
                Some((-(m as int)) as i64)
            } else {
                None
            }
        } else {
            None
        }
    }
}

/// Writes a reading as its nine-byte wire form.
pub fn encode_reading(x: i64) -> (r: Vec<u8>)
    ensures
        r@ == spec_encode_reading(x),
        r@.len() == 9,
{
    let mut out: Vec<u8> = Vec::new();
    if x < 0 {
        out.push(1);
    } else {
        out.push(0);
    }
    let m: u64 = if x < 0 {
        if x == i64::MIN {
            0x8000_0000_0000_0000u64
        } else {
            (-x) as u64
        }
    } else {
        x as u64
    };
    let mb = vstd::bytes::u64_to_le_bytes(m);
    push_all(&mut out, mb.as_slice());
    proof {
        vstd::bytes::lemma_auto_spec_u64_to_from_le_bytes();
        assert(out@ =~= spec_encode_reading(x));
    }
    out
}

/// Reads a reading back from its nine-byte wire form.
pub fn decode_reading(b: &[u8]) -> (r: Option<i64>)
    ensures
        r == spec_decode_reading(b@),
{
    if b.len() != 9 {
        return None;
    }
    let sign = b[0];
    let m = vstd::bytes::u64_from_le_bytes(vstd::slice::slice_subrange(b, 1, 9));
    proof {
        assert(b@.subrange(1, 9) =~= b@.skip(1));
    }
    if sign == 0 {
        if m <= 0x7fff_ffff_ffff_ffffu64 {
            Some(m as i64)
        } else {
            None
        }
    } else if sign == 1 {
        if 1 <= m && m <= 0x8000_0000_0000_0000u64 {
            if m == 0x8000_0000_0000_0000u64 {
                Some(i64::MIN)
            } else {
                Some(-(m as i64))
            }
        } else {
            None
        }
    } else {
        None
    }
}

/// Reading round trip: every signed reading decodes back from its wire form.
pub proof fn lemma_reading_round_trip(x: i64)
    ensures
        spec_decode_reading(spec_encode_reading(x)) == Some(x),
{
    vstd::bytes::lemma_auto_spec_u64_to_from_le_bytes();
    assert(spec_encode_reading(x).skip(1) =~= vstd::bytes::spec_u64_to_le_bytes(
        reading_magnitude(x),
    ));
}

/// Relies on `String::from_utf8`: it succeeds exactly on valid UTF-8 input
/// and the returned string consists of exactly the given bytes.
#[verifier::external_body]
pub fn string_from_utf8(v: Vec<u8>) -> (r: Option<String>)
    ensures
        r is Some <==> valid_utf8(v@),
        r matches Some(s) ==> s@ == decode_utf8(v@),
{
    String::from_utf8(v).ok()
}

/// Appends every byte of `src` to `dst`, in order.
pub fn push_all(dst: &mut Vec<u8>, src: &[u8])
    ensures
        final(dst)@ == old(dst)@ + src@,
{
    let n = src.len();
    let mut i: usize = 0;
    while i < n
        invariant
            n == src@.len(),
            i <= n,
            dst@ == old(dst)@ + src@.take(i as int),
        decreases n - i,
    {
        dst.push(src[i]);
        proof {
            assert(old(dst)@ + src@.take(i as int) + seq![src@[i as int]] =~= old(dst)@
                + src@.take(i + 1 as int));
        }
        i += 1;
    }
    proof {
        assert(src@.take(n as int) =~= src@);
    }
}

/// Whether two byte slices hold the same bytes.
pub fn bytes_eq(a: &[u8], b: &[u8]) -> (r: bool)
    ensures
        r == (a@ == b@),
{
    if a.len() != b.len() {
        return false;
    }
    let n = a.len();
    let mut i: usize = 0;
    while i < n
        invariant
            n == a@.len() == b@.len(),
            i <= n,
            forall|j: int| 0 <= j < i ==> a@[j] == b@[j],
        decreases n - i,
    {
        if a[i] != b[i] {
            return false;
        }
        i += 1;
    }
    proof {
        assert(a@ =~= b@);
    }
    true
}

/// Whether two string slices spell the same text.
pub fn str_eq(a: &str, b: &str) -> (r: bool)
    ensures
        r == (a@ == b@),
{
    let r = bytes_eq(a.as_bytes(), b.as_bytes());
    proof {
        if a.spec_bytes() == b.spec_bytes() {
            vstd::utf8::encode_utf8_decode_utf8(a@);
            vstd::utf8::encode_utf8_decode_utf8(b@);
        }
    }
    r
}

} // verus!
