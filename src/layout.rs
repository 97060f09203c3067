//! Byte layouts of the identifier kinds, and what can be read back from them.
use vstd::prelude::*;

use crate::outside::{tag_random, uuid_v1_bytes};

verus! {

/// The number of 100 ns ticks between 1582-10-15 and 1970-01-01.
pub const EPOCH_OFFSET_TICKS: u64 = 0x01B2_1DD2_1381_4000;

/// Ticks since 1582-10-15 of a moment given as seconds and nanoseconds since
/// the Unix epoch.
pub open spec fn ticks_of_unix(secs: u64, nanos: u32) -> int {
    EPOCH_OFFSET_TICKS + secs * 10_000_000 + nanos / 100
}

/// The eight bytes of `x`, most significant first.
pub open spec fn be64(x: u64) -> Seq<u8> {
    seq![
        (x >> 56u64) as u8, (x >> 48u64) as u8, (x >> 40u64) as u8, (x >> 32u64) as u8,
        (x >> 24u64) as u8, (x >> 16u64) as u8, (x >> 8u64) as u8, x as u8,
    ]
}

/// The four bytes of `x`, most significant first.
pub open spec fn be32(x: u32) -> Seq<u8> {
    seq![(x >> 24u32) as u8, (x >> 16u32) as u8, (x >> 8u32) as u8, x as u8]
}

/// The two bytes of `x`, most significant first.
pub open spec fn be16(x: u16) -> Seq<u8> {
    seq![(x >> 8u16) as u8, x as u8]
}

/// The generator tag: the high nibble of byte 6.
pub open spec fn version_of(b: Seq<u8>) -> u8 {
    b[6] >> 4u8
}

/// The variant: the two high bits of byte 8 (`10`, that is 2, for RFC 4122).
pub open spec fn variant_of(b: Seq<u8>) -> u8 {
    b[8] >> 6u8
}

/// The 14-bit clock sequence carried in bytes 8 and 9.
pub open spec fn clock_seq_of(b: Seq<u8>) -> int {
    (b[8] & 0x3Fu8) * 256 + b[9]
}

/// The node identifier: the last six bytes.
pub open spec fn node_of(b: Seq<u8>) -> Seq<u8> {
    b.subrange(10, 16)
}

/// The high half of a time-high-first identifier: tick bits 12..60 on top,
/// then the version nibble 6, then tick bits 0..12.
pub open spec fn v6_high(ticks: u64) -> u64 {
    ((ticks << 4u64) & 0xFFFF_FFFF_FFFF_0000u64) | (ticks & 0x0FFFu64) | 0x6000u64
}

/// Variant bits `10` above the low 14 bits of the clock sequence.
pub open spec fn v6_seq_field(counter: u16) -> u16 {
    0x8000u16 | (counter & 0x3FFFu16)
}

/// A time-high-first identifier (version 6).
pub open spec fn v6_layout(ticks: u64, counter: u16, node: Seq<u8>) -> Seq<u8> {
    be64(v6_high(ticks)) + be16(v6_seq_field(counter)) + node
}

/// A time-low-first identifier (version 1): time_low, time_mid and
/// time_hi_and_version big-endian, then the variant and clock sequence.
pub open spec fn v1_layout(ticks: u64, counter: u16, node: Seq<u8>) -> Seq<u8> {
    be32((ticks & 0xFFFF_FFFFu64) as u32) + be16(((ticks >> 32u64) & 0xFFFFu64) as u16) + be16(
        (((ticks >> 48u64) & 0x0FFFu64) as u16) | 0x1000u16,
    ) + seq![(((counter & 0x3F00u16) >> 8u16) as u8) | 0x80u8, (counter & 0xFFu16) as u8] + node
}

/// Random bytes with the version nibble set to 4 and the variant to `10`.
pub open spec fn v4_layout(random: Seq<u8>) -> Seq<u8> {
    random.update(6, (random[6] & 0x0Fu8) | 0x40u8).update(8, (random[8] & 0x3Fu8) | 0x80u8)
}

/// The big-endian value of eight bytes.
pub open spec fn be64_value(b0: u8, b1: u8, b2: u8, b3: u8, b4: u8, b5: u8, b6: u8, b7: u8) -> u64 {
    (b0 as u64) << 56u64 | (b1 as u64) << 48u64 | (b2 as u64) << 40u64 | (b3 as u64) << 32u64
        | (b4 as u64) << 24u64 | (b5 as u64) << 16u64 | (b6 as u64) << 8u64 | (b7 as u64)
}

/// The 60-bit tick count read back from a time-high-first identifier.
pub open spec fn v6_ticks_of(b: Seq<u8>) -> u64 {
    let hi = be64_value(b[0], b[1], b[2], b[3], b[4], b[5], b[6], b[7]);
    ((hi >> 16u64) << 12u64) | (hi & 0x0FFFu64)
}

/// The 60-bit tick count read back from a time-low-first identifier.
pub open spec fn v1_ticks_of(b: Seq<u8>) -> u64 {
    be64_value(b[6] & 0x0Fu8, b[7], b[4], b[5], b[0], b[1], b[2], b[3])
}

/// Every time-low-first identifier carries version 1 and variant `10`.
pub proof fn lemma_v1_tags(ticks: u64, counter: u16, node: Seq<u8>)
    requires
        node.len() == 6,
    ensures
        v1_layout(ticks, counter, node).len() == 16,
        version_of(v1_layout(ticks, counter, node)) == 1,
        variant_of(v1_layout(ticks, counter, node)) == 2,
{
    let b = v1_layout(ticks, counter, node);
    let t = (((ticks >> 48u64) & 0x0FFFu64) as u16) | 0x1000u16;
    assert(b[6] == (t >> 8u16) as u8);
    assert(((t >> 8u16) as u8) >> 4u8 == 1) by (bit_vector)
        requires t == (((ticks >> 48u64) & 0x0FFFu64) as u16) | 0x1000u16;
    assert(((((counter & 0x3F00u16) >> 8u16) as u8) | 0x80u8) >> 6u8 == 2) by (bit_vector);
}

/// Every time-high-first identifier carries version 6 and variant `10`.
pub proof fn lemma_v6_tags(ticks: u64, counter: u16, node: Seq<u8>)
    requires
        node.len() == 6,
    ensures
        v6_layout(ticks, counter, node).len() == 16,
        version_of(v6_layout(ticks, counter, node)) == 6,
        variant_of(v6_layout(ticks, counter, node)) == 2,
{
    let hi = v6_high(ticks);
    assert(((hi >> 8u64) as u8) >> 4u8 == 6) by (bit_vector)
        requires hi == ((ticks << 4u64) & 0xFFFF_FFFF_FFFF_0000u64) | (ticks & 0x0FFFu64) | 0x6000u64;
    assert(((v6_seq_field(counter) >> 8u16) as u8) >> 6u8 == 2) by (bit_vector);
}

/// Every identifier built from random bytes carries version 4 and variant
/// `10`, and keeps all other bytes.
pub proof fn lemma_v4_tags(random: Seq<u8>)
    requires
        random.len() == 16,
    ensures
        v4_layout(random).len() == 16,
        version_of(v4_layout(random)) == 4,
        variant_of(v4_layout(random)) == 2,
        forall|i: int| 0 <= i < 16 && i != 6 && i != 8 ==> v4_layout(random)[i] == random[i],
{
    let a = random[6];
    let c = random[8];
    assert(((a & 0x0Fu8) | 0x40u8) >> 4u8 == 4) by (bit_vector);
    assert(((c & 0x3Fu8) | 0x80u8) >> 6u8 == 2) by (bit_vector);
}

/// Both time-based layouts carry the low 14 bits of the clock sequence.
pub proof fn lemma_clock_seq(ticks: u64, counter: u16, node: Seq<u8>)
    requires
        node.len() == 6,
    ensures
        clock_seq_of(v1_layout(ticks, counter, node)) == counter % 16384,
        clock_seq_of(v6_layout(ticks, counter, node)) == counter % 16384,
{
    let f = v6_seq_field(counter);
    assert(((((f >> 8u16) as u8) & 0x3Fu8) as u16) * 256 + ((f as u8) as u16) == counter % 16384)
        by (bit_vector)
        requires f == 0x8000u16 | (counter & 0x3FFFu16);
    assert(((((((counter & 0x3F00u16) >> 8u16) as u8) | 0x80u8) & 0x3Fu8) as u16) * 256 + (((
    counter & 0xFFu16) as u8) as u16) == counter % 16384) by (bit_vector);
}

/// Both time-based layouts carry the low 60 bits of the tick count, and the
/// node bytes unchanged.
pub proof fn lemma_ticks_and_node(ticks: u64, counter: u16, node: Seq<u8>)
    requires
        node.len() == 6,
    ensures
        v1_ticks_of(v1_layout(ticks, counter, node)) == ticks % 0x1000_0000_0000_0000,
        v6_ticks_of(v6_layout(ticks, counter, node)) == ticks % 0x1000_0000_0000_0000,
        node_of(v1_layout(ticks, counter, node)) == node,
        node_of(v6_layout(ticks, counter, node)) == node,
{
    let hi = v6_high(ticks);
    assert(((be64_value(
        (hi >> 56u64) as u8,
        (hi >> 48u64) as u8,
        (hi >> 40u64) as u8,
        (hi >> 32u64) as u8,
        (hi >> 24u64) as u8,
        (hi >> 16u64) as u8,
        (hi >> 8u64) as u8,
        hi as u8,
    ) >> 16u64) << 12u64) | (be64_value(
        (hi >> 56u64) as u8,
        (hi >> 48u64) as u8,
        (hi >> 40u64) as u8,
        (hi >> 32u64) as u8,
        (hi >> 24u64) as u8,
        (hi >> 16u64) as u8,
        (hi >> 8u64) as u8,
        hi as u8,
    ) & 0x0FFFu64) == ticks % 0x1000_0000_0000_0000) by (bit_vector)
        requires hi == ((ticks << 4u64) & 0xFFFF_FFFF_FFFF_0000u64) | (ticks & 0x0FFFu64) | 0x6000u64;
    let lo = (ticks & 0xFFFF_FFFFu64) as u32;
    let mid = ((ticks >> 32u64) & 0xFFFFu64) as u16;
    let th = (((ticks >> 48u64) & 0x0FFFu64) as u16) | 0x1000u16;
    assert(be64_value(
        ((th >> 8u16) as u8) & 0x0Fu8,
        th as u8,
        (mid >> 8u16) as u8,
        mid as u8,
        (lo >> 24u32) as u8,
        (lo >> 16u32) as u8,
        (lo >> 8u32) as u8,
        lo as u8,
    ) == ticks % 0x1000_0000_0000_0000) by (bit_vector)
        requires
            lo == (ticks & 0xFFFF_FFFFu64) as u32,
            mid == ((ticks >> 32u64) & 0xFFFFu64) as u16,
            th == (((ticks >> 48u64) & 0x0FFFu64) as u16) | 0x1000u16,
    ;
    assert(node_of(v1_layout(ticks, counter, node)) =~= node);
    assert(node_of(v6_layout(ticks, counter, node)) =~= node);
}

/// Packs a time-high-first identifier.
pub(crate) fn encode_v6(ticks: u64, counter: u16, node: &[u8; 6]) -> (r: [u8; 16])
    ensures
        r@ == v6_layout(ticks, counter, node@),
{
    let hi: u64 = ((ticks << 4u64) & 0xFFFF_FFFF_FFFF_0000u64) | (ticks & 0x0FFFu64) | 0x6000u64;
    let lo: u16 = 0x8000u16 | (counter & 0x3FFFu16);
    let r = [
        (hi >> 56u64) as u8,
        (hi >> 48u64) as u8,
        (hi >> 40u64) as u8,
        (hi >> 32u64) as u8,
        (hi >> 24u64) as u8,
        (hi >> 16u64) as u8,
        (hi >> 8u64) as u8,
        hi as u8,
        (lo >> 8u16) as u8,
        lo as u8,
        node[0],
        node[1],
        node[2],
        node[3],
        node[4],
        node[5],
    ];
    assert(r@ =~= v6_layout(ticks, counter, node@));
    r
}

/// Packs a time-low-first identifier.
pub(crate) fn encode_v1(ticks: u64, counter: u16, node: &[u8; 6]) -> (r: [u8; 16])
    ensures
        r@ == v1_layout(ticks, counter, node@),
{
    // The node is six bytes long, so the call cannot fail.
    match uuid_v1_bytes(ticks, counter, node) {
        Ok(b) => b,
        Err(_) => [0u8; 16],
    }
}

/// Tags sixteen random bytes as a fully random identifier.
pub(crate) fn encode_v4(random: [u8; 16]) -> (r: [u8; 16])
    ensures
        r@ == v4_layout(random@),
{
    let r = tag_random(random);
    assert(r@ =~= v4_layout(random@));
    r
}

} // verus!
