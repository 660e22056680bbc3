//! The bit layouts of the identifiers: which bits of an identifier hold the
//! timestamp, the node, the shard, the thread and the sequence number.
//!
//! Every field is cut to its width before it is shifted into place, so no
//! field spills into its neighbour.

use vstd::prelude::*;

verus! {

/// `x` with its bits moved `k` places to the left, those that leave at the
/// top coming back in at the bottom. For `k < 64`; by 0 places `x` stays as
/// it is.
pub open spec fn rotl64(x: u64, k: u64) -> u64 {
    if k == 0 {
        x
    } else {
        (x << k) | (x >> ((64 - k) as u64))
    }
}

/// `x` with its bits moved `k` places to the right, those that leave at the
/// bottom coming back in at the top. For `k < 64`; by 0 places `x` stays as
/// it is.
pub open spec fn rotr64(x: u64, k: u64) -> u64 {
    if k == 0 {
        x
    } else {
        (x >> k) | (x << ((64 - k) as u64))
    }
}

/// A byte with its bits moved `k` places to the left, those that leave at
/// the top coming back in at the bottom. For `0 < k < 8`.
pub open spec fn rotl8(x: u8, k: u8) -> u8 {
    (x << k) | (x >> ((8 - k) as u8))
}

/// Rotates a 64-bit word to the left by `k` places.
pub fn rotate_left_64(x: u64, k: u32) -> (r: u64)
    requires
        k < 64,
    ensures
        r == rotl64(x, k as u64),
        k == 0 ==> r == x,
{
    if k == 0 {
        x
    } else {
        (x << k) | (x >> (64 - k))
    }
}

/// Rotates a 64-bit word to the right by `k` places.
pub fn rotate_right_64(x: u64, k: u32) -> (r: u64)
    requires
        k < 64,
    ensures
        r == rotr64(x, k as u64),
        k == 0 ==> r == x,
{
    if k == 0 {
        x
    } else {
        (x >> k) | (x << (64 - k))
    }
}

/// The 24-bit identifier: the low 24 bits of the sequence number.
pub open spec fn id24(seq: u64) -> u32 {
    (seq & 0xFF_FFFF) as u32
}

/// The 32-bit identifier, from the top: 8 bits thread, 24 bits sequence.
pub open spec fn id32(thread_id: u8, seq: u64) -> u32 {
    ((thread_id as u32) << 24) | ((seq & 0xFF_FFFF) as u32)
}

/// The 64-bit identifier, from the top: 20 bits timestamp, 12 bits node,
/// 8 bits shard, 8 bits thread, 16 bits sequence.
///
/// The timestamp counts milliseconds, so its 20 bits come round after
/// 1 048 576 ms, which is some seventeen and a half minutes.
pub open spec fn id64(ts: u64, node_id: u16, shard_id: u8, thread_id: u8, seq: u64) -> u64 {
    ((ts & 0xF_FFFF) << 44) | (((node_id & 0xFFF) as u64) << 32) | ((shard_id as u64) << 24) | ((
    thread_id as u64) << 16) | (seq & 0xFFFF)
}

/// The upper half of the 128-bit identifier, from the top: 32 bits
/// timestamp, 12 bits node, 8 bits shard, 8 bits thread, and 4 bits taken
/// from the nanosecond clock: the low 4 bits of it rotated right by 16.
pub open spec fn id128_high(ts: u64, nanos: u64, node_id: u16, shard_id: u8, thread_id: u8) -> u64 {
    ((ts & 0xFFFF_FFFF) << 32) | (((node_id & 0xFFF) as u64) << 20) | ((shard_id as u64) << 12) | ((
    thread_id as u64) << 4) | (rotr64(nanos, 16) & 0xF)
}

/// The lower half of the 128-bit identifier, from the top: the low 32 bits
/// of the nanosecond clock, 24 bits sequence, and the thread byte rotated
/// left by 3.
pub open spec fn id128_low(nanos: u64, thread_id: u8, seq: u64) -> u64 {
    ((nanos & 0xFFFF_FFFF) << 32) | ((seq & 0xFF_FFFF) << 8) | (rotl8(thread_id, 3) as u64)
}

/// The 128-bit identifier: its upper half above its lower half.
pub open spec fn id128(
    ts: u64,
    nanos: u64,
    node_id: u16,
    shard_id: u8,
    thread_id: u8,
    seq: u64,
) -> u128 {
    ((id128_high(ts, nanos, node_id, shard_id, thread_id) as u128) << 64) | (id128_low(
        nanos,
        thread_id,
        seq,
    ) as u128)
}

/// The second limb of the 256-bit identifier. Upper half: the upper half of
/// the nanosecond clock rotated left by 16, exclusive-or its lower half (of
/// this mix the low 32 bits). Lower half: the low 32 bits of the sequence
/// number rotated right by 8.
pub open spec fn id256_limb1(nanos: u64, seq: u64) -> u64 {
    ((rotl64((nanos >> 32) & 0xFFFF_FFFF, 16) ^ (nanos & 0xFFFF_FFFF)) << 32) | (rotr64(seq, 8)
        & 0xFFFF_FFFF)
}

/// The third limb of the 256-bit identifier. Upper half: the thread byte
/// four times, once in each of the four bytes. Lower half: the low 32 bits
/// of the sequence number rotated left by 16.
pub open spec fn id256_limb2(thread_id: u8, seq: u64) -> u64 {
    ((thread_id as u64) << 56) | ((thread_id as u64) << 48) | ((thread_id as u64) << 40) | ((
    thread_id as u64) << 32) | (rotl64(seq, 16) & 0xFFFF_FFFF)
}

/// The fourth limb of the 256-bit identifier: the low 16 bits of the
/// timestamp rotated right by 12; the node at bit 48 and, rotated left by
/// 4, at bit 32; the shard at bit 24 and, rotated left by 2, 4 and 6, at
/// bits 16, 8 and 0. The node is taken whole here, all 16 bits of it.
pub open spec fn id256_limb3(ts: u64, node_id: u16, shard_id: u8) -> u64 {
    (rotr64(ts, 12) & 0xFFFF) | ((node_id as u64) << 48) | (rotl64(node_id as u64, 4) << 32) | ((
    shard_id as u64) << 24) | (rotl64(shard_id as u64, 2) << 16) | (rotl64(shard_id as u64, 4)
        << 8) | rotl64(shard_id as u64, 6)
}

/// The 256-bit identifier as four limbs. The first has the layout of the
/// 64-bit identifier.
pub open spec fn id256(
    ts: u64,
    nanos: u64,
    node_id: u16,
    shard_id: u8,
    thread_id: u8,
    seq: u64,
) -> Seq<u64> {
    seq![
        id64(ts, node_id, shard_id, thread_id, seq),
        id256_limb1(nanos, seq),
        id256_limb2(thread_id, seq),
        id256_limb3(ts, node_id, shard_id),
    ]
}

/// Packs a 24-bit identifier.
pub fn pack24(seq: u64) -> (id: u32)
    ensures
        id == id24(seq),
        id < 0x100_0000,
{
    let id = (seq & 0xFF_FFFF) as u32;
    assert(((seq & 0xFF_FFFF) as u32) < 0x100_0000u32) by (bit_vector);
    id
}

/// Packs a 32-bit identifier.
pub fn pack32(thread_id: u8, seq: u64) -> (id: u32)
    ensures
        id == id32(thread_id, seq),
{
    let thread_bits = ((thread_id as u32) & 0xFF) << 24;
    let seq_bits = (seq & 0xFF_FFFF) as u32;
    assert((((thread_id as u32) & 0xFF) << 24) == ((thread_id as u32) << 24)) by (bit_vector);
    thread_bits | seq_bits
}

/// Packs a 64-bit identifier.
pub fn pack64(ts: u64, node_id: u16, shard_id: u8, thread_id: u8, seq: u64) -> (id: u64)
    ensures
        id == id64(ts, node_id, shard_id, thread_id, seq),
{
    let ts_bits = (ts & 0xF_FFFF) << 44;
    let node_bits = ((node_id & 0xFFF) as u64) << 32;
    let shard_bits = ((shard_id as u64) & 0xFF) << 24;
    let thread_bits = ((thread_id as u64) & 0xFF) << 16;
    let seq_bits = seq & 0xFFFF;
    assert(((shard_id as u64) & 0xFF) << 24 == (shard_id as u64) << 24 && ((thread_id as u64)
        & 0xFF) << 16 == (thread_id as u64) << 16) by (bit_vector);
    ts_bits | node_bits | shard_bits | thread_bits | seq_bits
}

/// Packs a 128-bit identifier.
pub fn pack128(ts: u64, nanos: u64, node_id: u16, shard_id: u8, thread_id: u8, seq: u64) -> (id:
    u128)
    ensures
        id == id128(ts, nanos, node_id, shard_id, thread_id, seq),
{
    let high_part = {
        let ts_bits = (ts & 0xFFFF_FFFF) << 32;
        let node_bits = ((node_id & 0xFFF) as u64) << 20;
        let shard_bits = ((shard_id as u64) & 0xFF) << 12;
        let thread_bits = ((thread_id as u64) & 0xFF) << 4;
        let reserved = rotate_right_64(nanos, 16) & 0xF;
        assert(((shard_id as u64) & 0xFF) << 12 == (shard_id as u64) << 12 && ((thread_id as u64)
            & 0xFF) << 4 == (thread_id as u64) << 4) by (bit_vector);
        ts_bits | node_bits | shard_bits | thread_bits | reserved
    };
    let low_part = {
        let nanos_bits = (nanos & 0xFFFF_FFFF) << 32;
        let seq_bits = (seq & 0xFF_FFFF) << 8;
        let thread_rot = ((thread_id << 3) | (thread_id >> 5)) as u64;
        nanos_bits | seq_bits | thread_rot
    };
    ((high_part as u128) << 64) | (low_part as u128)
}

/// Packs a 256-bit identifier.
pub fn pack256(ts: u64, nanos: u64, node_id: u16, shard_id: u8, thread_id: u8, seq: u64) -> (id:
    [u64; 4])
    ensures
        id@ == id256(ts, nanos, node_id, shard_id, thread_id, seq),
{
    let part0 = pack64(ts, node_id, shard_id, thread_id, seq);
    let part1 = {
        let nanos_high = (nanos >> 32) & 0xFFFF_FFFF;
        let nanos_low = nanos & 0xFFFF_FFFF;
        let mixed = rotate_left_64(nanos_high, 16) ^ nanos_low;
        (mixed << 32) | (rotate_right_64(seq, 8) & 0xFFFF_FFFF)
    };
    let part2 = {
        let thread_expanded = ((thread_id as u64) << 56) | ((thread_id as u64) << 48) | ((
        thread_id as u64) << 40) | ((thread_id as u64) << 32);
        let seq_mixed = rotate_left_64(seq, 16) & 0xFFFF_FFFF;
        thread_expanded | seq_mixed
    };
    let part3 = {
        let ts_rotated = rotate_right_64(ts, 12);
        let node_expanded = ((node_id as u64) << 48) | (rotate_left_64(node_id as u64, 4) << 32);
        let shard_expanded = ((shard_id as u64) << 24) | (rotate_left_64(shard_id as u64, 2) << 16)
            | (rotate_left_64(shard_id as u64, 4) << 8) | rotate_left_64(shard_id as u64, 6);
        assert((ts_rotated & 0xFFFF) | (((node_id as u64) << 48) | (rotl64(node_id as u64, 4)
            << 32)) | (((shard_id as u64) << 24) | (rotl64(shard_id as u64, 2) << 16) | (rotl64(
            shard_id as u64,
            4,
        ) << 8) | rotl64(shard_id as u64, 6)) == id256_limb3(ts, node_id, shard_id))
            by (bit_vector)
            requires
                ts_rotated == rotr64(ts, 12),
        ;
        (ts_rotated & 0xFFFF) | node_expanded | shard_expanded
    };
    let id = [part0, part1, part2, part3];
    assert(id@ =~= id256(ts, nanos, node_id, shard_id, thread_id, seq));
    id
}

/// The value of a wrapping 64-bit counter `calls` calls after it held
/// `start`.
pub open spec fn counter_after(start: u64, calls: u64) -> u64 {
    (start + calls) as u64
}

/// A 24-bit identifier is below 2^24, and the one made 2^24 calls later is
/// the same again: the counter's low 24 bits have wrapped.
pub proof fn lemma_id24_wraps(seq: u64)
    by (bit_vector)
    ensures
        id24(seq) < 0x100_0000,
        id24(counter_after(seq, 0x100_0000)) == id24(seq),
{
}

/// Within 2^24 calls in a row no 24-bit identifier comes twice.
pub proof fn lemma_id24_distinct(start: u64, i: u64, j: u64)
    by (bit_vector)
    requires
        i < j,
        j < 0x100_0000,
    ensures
        id24(counter_after(start, i)) != id24(counter_after(start, j)),
{
}

/// The fields of a 32-bit identifier can be read back.
pub proof fn lemma_id32_fields(thread_id: u8, seq: u64)
    by (bit_vector)
    ensures
        id32(thread_id, seq) >> 24 == thread_id as u32,
        id32(thread_id, seq) & 0xFF_FFFF == id24(seq),
{
}

/// Within 2^24 calls in a row no 32-bit identifier comes twice, whichever
/// threads make the calls.
pub proof fn lemma_id32_distinct(thread_a: u8, thread_b: u8, start: u64, i: u64, j: u64)
    by (bit_vector)
    requires
        i < j,
        j < 0x100_0000,
    ensures
        id32(thread_a, counter_after(start, i)) != id32(thread_b, counter_after(start, j)),
{
}

/// The fields of a 64-bit identifier can be read back, each cut to its
/// width: no field disturbs another.
pub proof fn lemma_id64_fields(ts: u64, node_id: u16, shard_id: u8, thread_id: u8, seq: u64)
    by (bit_vector)
    ensures
        id64(ts, node_id, shard_id, thread_id, seq) >> 44 == ts & 0xF_FFFF,
        (id64(ts, node_id, shard_id, thread_id, seq) >> 32) & 0xFFF == (node_id & 0xFFF) as u64,
        (id64(ts, node_id, shard_id, thread_id, seq) >> 24) & 0xFF == shard_id as u64,
        (id64(ts, node_id, shard_id, thread_id, seq) >> 16) & 0xFF == thread_id as u64,
        id64(ts, node_id, shard_id, thread_id, seq) & 0xFFFF == seq & 0xFFFF,
{
}

/// The timestamp field of a 64-bit identifier comes round: 2^20 milliseconds
/// later the same fields give the same identifier again.
pub proof fn lemma_id64_timestamp_wraps(
    ts: u64,
    node_id: u16,
    shard_id: u8,
    thread_id: u8,
    seq: u64,
)
    by (bit_vector)
    ensures
        id64(counter_after(ts, 0x10_0000), node_id, shard_id, thread_id, seq) == id64(
            ts,
            node_id,
            shard_id,
            thread_id,
            seq,
        ),
{
}

/// 2^16 calls in a row give 2^16 different 64-bit identifiers, even within
/// one millisecond on one node, shard and thread: the sequence field alone
/// tells them apart, whatever the other fields hold.
pub proof fn lemma_id64_distinct(
    ts_a: u64,
    ts_b: u64,
    node_a: u16,
    node_b: u16,
    shard_a: u8,
    shard_b: u8,
    thread_a: u8,
    thread_b: u8,
    start: u64,
    i: u64,
    j: u64,
)
    by (bit_vector)
    requires
        i < j,
        j < 0x1_0000,
    ensures
        id64(ts_a, node_a, shard_a, thread_a, counter_after(start, i)) != id64(
            ts_b,
            node_b,
            shard_b,
            thread_b,
            counter_after(start, j),
        ),
{
}

/// The fields of a 128-bit identifier can be read back, each cut to its
/// width.
pub proof fn lemma_id128_fields(
    ts: u64,
    nanos: u64,
    node_id: u16,
    shard_id: u8,
    thread_id: u8,
    seq: u64,
)
    by (bit_vector)
    ensures
        id128(ts, nanos, node_id, shard_id, thread_id, seq) >> 96 == (ts & 0xFFFF_FFFF) as u128,
        (id128(ts, nanos, node_id, shard_id, thread_id, seq) >> 84) & 0xFFF == (node_id
            & 0xFFF) as u128,
        (id128(ts, nanos, node_id, shard_id, thread_id, seq) >> 76) & 0xFF == shard_id as u128,
        (id128(ts, nanos, node_id, shard_id, thread_id, seq) >> 68) & 0xFF == thread_id as u128,
        (id128(ts, nanos, node_id, shard_id, thread_id, seq) >> 64) & 0xF == ((nanos >> 16)
            & 0xF) as u128,
        (id128(ts, nanos, node_id, shard_id, thread_id, seq) >> 32) & 0xFFFF_FFFF == (nanos
            & 0xFFFF_FFFF) as u128,
        (id128(ts, nanos, node_id, shard_id, thread_id, seq) >> 8) & 0xFF_FFFF == (seq
            & 0xFF_FFFF) as u128,
        id128(ts, nanos, node_id, shard_id, thread_id, seq) & 0xFF == rotl8(thread_id, 3) as u128,
{
}

/// 2^24 calls in a row give 2^24 different 128-bit identifiers: the sequence
/// field alone tells them apart, whatever the other fields hold.
pub proof fn lemma_id128_distinct(
    ts_a: u64,
    ts_b: u64,
    nanos_a: u64,
    nanos_b: u64,
    node_a: u16,
    node_b: u16,
    shard_a: u8,
    shard_b: u8,
    thread_a: u8,
    thread_b: u8,
    start: u64,
    i: u64,
    j: u64,
)
    by (bit_vector)
    requires
        i < j,
        j < 0x100_0000,
    ensures
        id128(ts_a, nanos_a, node_a, shard_a, thread_a, counter_after(start, i)) != id128(
            ts_b,
            nanos_b,
            node_b,
            shard_b,
            thread_b,
            counter_after(start, j),
        ),
{
}

/// Two sequence numbers less than 2^40 calls apart differ in the first or in
/// the second limb: the first keeps bits 0 to 15 of the sequence number, the
/// second bits 8 to 39.
proof fn lemma_id256_limbs_differ(
    ts_a: u64,
    ts_b: u64,
    nanos_a: u64,
    nanos_b: u64,
    node_a: u16,
    node_b: u16,
    shard_a: u8,
    shard_b: u8,
    thread_a: u8,
    thread_b: u8,
    start: u64,
    i: u64,
    j: u64,
)
    by (bit_vector)
    requires
        i < j,
        j < 0x100_0000_0000,
    ensures
        id64(ts_a, node_a, shard_a, thread_a, counter_after(start, i)) != id64(
            ts_b,
            node_b,
            shard_b,
            thread_b,
            counter_after(start, j),
        ) || id256_limb1(nanos_a, counter_after(start, i)) != id256_limb1(
            nanos_b,
            counter_after(start, j),
        ),
{
}

/// 2^40 calls in a row give 2^40 different 256-bit identifiers, whatever the
/// other fields hold.
pub proof fn lemma_id256_distinct(
    ts_a: u64,
    ts_b: u64,
    nanos_a: u64,
    nanos_b: u64,
    node_a: u16,
    node_b: u16,
    shard_a: u8,
    shard_b: u8,
    thread_a: u8,
    thread_b: u8,
    start: u64,
    i: u64,
    j: u64,
)
    requires
        i < j,
        j < 0x100_0000_0000,
    ensures
        id256(ts_a, nanos_a, node_a, shard_a, thread_a, counter_after(start, i)) != id256(
            ts_b,
            nanos_b,
            node_b,
            shard_b,
            thread_b,
            counter_after(start, j),
        ),
{
    lemma_id256_limbs_differ(
        ts_a,
        ts_b,
        nanos_a,
        nanos_b,
        node_a,
        node_b,
        shard_a,
        shard_b,
        thread_a,
        thread_b,
        start,
        i,
        j,
    );
    let a = id256(ts_a, nanos_a, node_a, shard_a, thread_a, counter_after(start, i));
    let b = id256(ts_b, nanos_b, node_b, shard_b, thread_b, counter_after(start, j));
    assert(a[0] != b[0] || a[1] != b[1]);
}

/// What can be read back from the limbs of a 256-bit identifier. The upper
/// half of the third limb is the thread byte four times over. In the fourth
/// limb the copies of the node and of the shard overlap; only the upper 12
/// bits of the node stand alone.
pub proof fn lemma_id256_fields(
    ts: u64,
    nanos: u64,
    node_id: u16,
    shard_id: u8,
    thread_id: u8,
    seq: u64,
)
    by (bit_vector)
    ensures
        id256_limb1(nanos, seq) & 0xFFFF_FFFF == (seq >> 8) & 0xFFFF_FFFF,
        id256_limb1(nanos, seq) >> 32 == (((nanos >> 32) << 16) ^ nanos) & 0xFFFF_FFFF,
        id256_limb2(thread_id, seq) >> 32 == (thread_id as u64) * 0x0101_0101,
        (id256_limb2(thread_id, seq) >> 56) & 0xFF == thread_id as u64,
        (id256_limb2(thread_id, seq) >> 48) & 0xFF == thread_id as u64,
        (id256_limb2(thread_id, seq) >> 40) & 0xFF == thread_id as u64,
        (id256_limb2(thread_id, seq) >> 32) & 0xFF == thread_id as u64,
        id256_limb2(thread_id, seq) & 0xFFFF_0000 == (seq << 16) & 0xFFFF_0000,
        id256_limb2(thread_id, seq) & 0xFFFF == seq >> 48,
        id256_limb3(ts, node_id, shard_id) >> 52 == (node_id as u64) >> 4,
{
}

} // verus!
