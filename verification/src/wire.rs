//! Primitives of the subunit v2 wire format: big-endian fields, the
//! variable-length number encoding, and the trailing CRC-32 checksum.
//!
//! A wire number holds its value in 1, 2, 3 or 4 bytes; the top two bits of
//! the first byte give the byte count, so at most thirty bits of value can
//! be carried.
use vstd::prelude::*;

verus! {

/// The largest value the wire number encoding can carry.
pub const MAX_NUMBER: u32 = 0x3fffffff;

/// A 16-bit value in network byte order.
pub open spec fn be16(n: u16) -> Seq<u8> {
    seq![(n / 256) as u8, (n % 256) as u8]
}

/// A 32-bit value in network byte order.
pub open spec fn be32(n: u32) -> Seq<u8> {
    seq![
        (n / 0x1000000) as u8,
        ((n / 0x10000) % 256) as u8,
        ((n / 256) % 256) as u8,
        (n % 256) as u8,
    ]
}

/// The wire encoding of a number: the shortest of the four widths that
/// holds the value, its byte count in the top two bits of the first byte.
pub open spec fn number_bytes(n: u32) -> Seq<u8>
    recommends
        n <= MAX_NUMBER,
{
    if n < 64 {
        seq![n as u8]
    } else if n < 16384 {
        seq![(64 + n / 256) as u8, (n % 256) as u8]
    } else if n < 4194304 {
        seq![(128 + n / 65536) as u8, ((n / 256) % 256) as u8, (n % 256) as u8]
    } else {
        seq![
            (192 + n / 0x1000000) as u8,
            ((n / 0x10000) % 256) as u8,
            ((n / 256) % 256) as u8,
            (n % 256) as u8,
        ]
    }
}

/// The CRC-32 checksum (IEEE polynomial, as zlib computes it) of the bytes.
pub uninterp spec fn crc32_of(data: Seq<u8>) -> u32;

/// Relies on crc32fast::hash: the IEEE CRC-32 checksum of the bytes.
#[verifier::external_body]
pub(crate) fn crc32(data: &Vec<u8>) -> (r: u32)
    ensures
        r == crc32_of(data@),
{
    crc32fast::hash(data.as_slice())
}

/// Append a 16-bit value in network byte order.
pub(crate) fn push_be16(out: &mut Vec<u8>, n: u16)
    ensures
        final(out)@ == old(out)@ + be16(n),
{
    out.push((n / 256) as u8);
    out.push((n % 256) as u8);
    proof {
        assert(final(out)@ =~= old(out)@ + be16(n));
    }
}

/// Append a 32-bit value in network byte order.
pub(crate) fn push_be32(out: &mut Vec<u8>, n: u32)
    ensures
        final(out)@ == old(out)@ + be32(n),
{
    out.push((n / 0x1000000) as u8);
    out.push(((n / 0x10000) % 256) as u8);
    out.push(((n / 256) % 256) as u8);
    out.push((n % 256) as u8);
    proof {
        assert(final(out)@ =~= old(out)@ + be32(n));
    }
}

/// Append a number in the wire encoding.
pub(crate) fn push_number(out: &mut Vec<u8>, n: u32)
    requires
        n <= MAX_NUMBER,
    ensures
        final(out)@ == old(out)@ + number_bytes(n),
{
    if n < 64 {
        out.push(n as u8);
    } else if n < 16384 {
        out.push((64 + n / 256) as u8);
        out.push((n % 256) as u8);
    } else if n < 4194304 {
        out.push((128 + n / 65536) as u8);
        out.push(((n / 256) % 256) as u8);
        out.push((n % 256) as u8);
    } else {
        out.push((192 + n / 0x1000000) as u8);
        out.push(((n / 0x10000) % 256) as u8);
        out.push(((n / 256) % 256) as u8);
        out.push((n % 256) as u8);
    }
    proof {
        assert(final(out)@ =~= old(out)@ + number_bytes(n));
    }
}

/// Append a copy of the given bytes.
pub(crate) fn push_bytes(out: &mut Vec<u8>, src: &Vec<u8>)
    ensures
        final(out)@ == old(out)@ + src@,
{
    let mut i: usize = 0;
    while i < src.len()
        invariant
            i <= src@.len(),
            out@ == old(out)@ + src@.subrange(0, i as int),
        decreases src@.len() - i,
    {
        out.push(src[i]);
        proof {
            assert(out@ =~= old(out)@ + src@.subrange(0, i + 1 as int));
        }
        i += 1;
    }
    proof {
        assert(src@.subrange(0, src@.len() as int) =~= src@);
    }
}

} // verus!
