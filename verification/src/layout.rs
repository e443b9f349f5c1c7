//! The byte layout of a version 7 identifier: a 48-bit big-endian
//! millisecond timestamp, a version nibble, a variant marker, and ten
//! bytes of random fill.

use vstd::prelude::*;

verus! {

/// Mask selecting the low 48 bits of a millisecond timestamp.
pub const TS_MASK: u64 = 0x0000_FFFF_FFFF_FFFF;

/// The byte layout of a version 7 identifier built from a timestamp `ms`
/// (truncated to its low 48 bits, most significant byte first) and ten
/// bytes of random fill: the fill occupies bytes 6 through 15, except that
/// the high nibble of byte 6 is forced to 7 (the version) and the two high
/// bits of byte 8 are forced to binary 10 (the variant).
pub open spec fn spec_v7_bytes(ms: u64, fill: Seq<u8>) -> Seq<u8>
    recommends
        fill.len() == 10,
{
    let m = ms & TS_MASK;
    seq![
        (m >> 40) as u8,
        (m >> 32) as u8,
        (m >> 24) as u8,
        (m >> 16) as u8,
        (m >> 8) as u8,
        m as u8,
        (fill[0] & 0x0f) | 0x70,
        fill[1],
        (fill[2] & 0x3f) | 0x80,
        fill[3],
        fill[4],
        fill[5],
        fill[6],
        fill[7],
        fill[8],
        fill[9],
    ]
}

/// A well-formed version 7 identifier: 16 bytes, version nibble 7,
/// variant bits binary 10.
pub open spec fn is_v7(s: Seq<u8>) -> bool {
    &&& s.len() == 16
    &&& (s[6] >> 4) == 7
    &&& (s[8] >> 6) == 2
}

/// Builds the 16 identifier bytes from a millisecond timestamp and ten
/// bytes of random fill, laying them out exactly as `spec_v7_bytes` says.
pub fn build_v7(ms: u64, fill: &[u8; 10]) -> (r: [u8; 16])
    ensures
        r@ == spec_v7_bytes(ms, fill@),
{
    let m: u64 = ms & TS_MASK;
    let r: [u8; 16] = [
        #[verifier::truncate] ((m >> 40) as u8),
        #[verifier::truncate] ((m >> 32) as u8),
        #[verifier::truncate] ((m >> 24) as u8),
        #[verifier::truncate] ((m >> 16) as u8),
        #[verifier::truncate] ((m >> 8) as u8),
        #[verifier::truncate] (m as u8),
        (fill[0] & 0x0f) | 0x70,
        fill[1],
        (fill[2] & 0x3f) | 0x80,
        fill[3],
        fill[4],
        fill[5],
        fill[6],
        fill[7],
        fill[8],
        fill[9],
    ];
    proof {
        assert(r@ =~= spec_v7_bytes(ms, fill@));
    }
    r
}

/// Reads the timestamp field back out of the identifier bytes: bytes 0
/// through 5 decoded as a big-endian 48-bit integer.
pub open spec fn spec_timestamp_of(s: Seq<u8>) -> u64
    recommends
        s.len() == 16,
{
    (((s[0] as u64) << 40) | ((s[1] as u64) << 32) | ((s[2] as u64) << 24) | ((s[3] as u64) << 16)
        | ((s[4] as u64) << 8) | (s[5] as u64))
}

/// Every identifier built by the layout carries the fixed markers: the
/// high nibble of byte 6 is 7 and the two high bits of byte 8 are
/// binary 10, whatever the timestamp and the fill.
pub proof fn lemma_v7_markers(ms: u64, fill: Seq<u8>)
    requires
        fill.len() == 10,
    ensures
        is_v7(spec_v7_bytes(ms, fill)),
{
    let f0 = fill[0];
    let f2 = fill[2];
    assert(((f0 & 0x0f) | 0x70) >> 4 == 7) by (bit_vector);
    assert(((f2 & 0x3f) | 0x80) >> 6 == 2) by (bit_vector);
}

/// Decoding bytes 0 through 5 of a built identifier as a big-endian
/// 48-bit integer yields exactly the timestamp the identifier was built
/// from, truncated to its low 48 bits.
pub proof fn lemma_timestamp_round_trip(ms: u64, fill: Seq<u8>)
    requires
        fill.len() == 10,
    ensures
        spec_timestamp_of(spec_v7_bytes(ms, fill)) == ms & TS_MASK,
{
    let m = ms & TS_MASK;
    assert(m == ms & 0x0000_FFFF_FFFF_FFFFu64);
    assert(((((m >> 40) as u8) as u64) << 40) | ((((m >> 32) as u8) as u64) << 32) | ((((m
        >> 24) as u8) as u64) << 24) | ((((m >> 16) as u8) as u64) << 16) | ((((m
        >> 8) as u8) as u64) << 8) | ((m as u8) as u64) == m) by (bit_vector)
        requires
            m == ms & 0x0000_FFFF_FFFF_FFFFu64,
    ;
}

} // verus!
