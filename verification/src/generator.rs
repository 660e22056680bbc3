//! The generator: it reads the clock, takes the next sequence number from
//! the shared state it was made with, and packs both with its node, its
//! shard and the calling thread's identifier into an identifier.

use vstd::prelude::*;
use crate::clock::elapsed;
use crate::clock::elapsed_since;
use crate::clock::unix_millis;
use crate::clock::unix_nanos;
use crate::layout::id128;
use crate::layout::id24;
use crate::layout::id256;
use crate::layout::id32;
use crate::layout::id64;
use crate::layout::lemma_id128_fields;
use crate::layout::lemma_id24_wraps;
use crate::layout::lemma_id32_fields;
use crate::layout::lemma_id64_fields;
use crate::layout::pack128;
use crate::layout::pack24;
use crate::layout::pack256;
use crate::layout::pack32;
use crate::layout::pack64;
use crate::layout::rotl8;
use crate::state::SharedState;

verus! {

/// The node of the generator that `xgen` returns.
pub const DEFAULT_NODE: u16 = 1;

/// The shard of the generator that `xgen` returns.
pub const DEFAULT_SHARD: u8 = 0;

/// A generator of identifiers for one node and one shard, drawing on a
/// shared state. Generators made with the same state share its counters and
/// its epoch, whatever their nodes and shards.
///
/// Of the node the low 12 bits enter the 64-bit and 128-bit layouts; a
/// larger number is cut, not refused.
pub struct IdGenerator<'a> {
    /// The node, 0 to 4095.
    pub node_id: u16,
    /// The shard, 0 to 255.
    pub shard_id: u8,
    /// The state that the generator draws on.
    pub state: &'a SharedState,
}

/// Whether `id` is a 24-bit identifier: some sequence number gives it.
pub open spec fn is_id24(id: u32) -> bool {
    exists|seq: u64| id == id24(seq)
}

/// Whether `id` is a 32-bit identifier of this thread: some sequence number
/// gives it.
pub open spec fn is_id32(id: u32, thread_id: u8) -> bool {
    exists|seq: u64| id == id32(thread_id, seq)
}

/// Whether `id` is a 64-bit identifier of this node, shard and thread: some
/// timestamp and some sequence number give it.
pub open spec fn is_id64(id: u64, node_id: u16, shard_id: u8, thread_id: u8) -> bool {
    exists|ts: u64, seq: u64| id == id64(ts, node_id, shard_id, thread_id, seq)
}

/// Whether `id` is a 128-bit identifier of this node, shard and thread: some
/// timestamp, some reading of the nanosecond clock and some sequence number
/// give it.
pub open spec fn is_id128(id: u128, node_id: u16, shard_id: u8, thread_id: u8) -> bool {
    exists|ts: u64, nanos: u64, seq: u64|
        id == id128(ts, nanos, node_id, shard_id, thread_id, seq)
}

/// Whether `id` holds the four limbs of a 256-bit identifier of this node,
/// shard and thread: one timestamp, one reading of the nanosecond clock and
/// one sequence number give all four.
pub open spec fn is_id256(id: Seq<u64>, node_id: u16, shard_id: u8, thread_id: u8) -> bool {
    exists|ts: u64, nanos: u64, seq: u64|
        id == id256(ts, nanos, node_id, shard_id, thread_id, seq)
}

/// The 24-bit identifiers are the numbers below 2^24.
pub proof fn lemma_is_id24(id: u32)
    ensures
        is_id24(id) <==> id < 0x100_0000,
{
    if id < 0x100_0000 {
        assert(id == id24(id as u64)) by (bit_vector)
            requires
                id < 0x100_0000,
        ;
    }
    if is_id24(id) {
        let seq = choose|seq: u64| id == id24(seq);
        lemma_id24_wraps(seq);
    }
}

/// The 32-bit identifiers of a thread are the numbers with that thread in
/// their top byte.
pub proof fn lemma_is_id32(id: u32, thread_id: u8)
    ensures
        is_id32(id, thread_id) <==> id >> 24 == thread_id as u32,
{
    if id >> 24 == thread_id as u32 {
        assert(id == id32(thread_id, id as u64)) by (bit_vector)
            requires
                id >> 24 == thread_id as u32,
        ;
    }
    if is_id32(id, thread_id) {
        let seq = choose|seq: u64| id == id32(thread_id, seq);
        lemma_id32_fields(thread_id, seq);
    }
}

/// Whether the node, shard and thread fields of a 64-bit number hold the
/// low 12 bits of this node, this shard and this thread.
pub open spec fn holds64(id: u64, node_id: u16, shard_id: u8, thread_id: u8) -> bool {
    &&& (id >> 32) & 0xFFF == (node_id & 0xFFF) as u64
    &&& (id >> 24) & 0xFF == shard_id as u64
    &&& (id >> 16) & 0xFF == thread_id as u64
}

/// Whether the node, shard and thread fields of a 128-bit number hold the
/// low 12 bits of this node, this shard and this thread, its lowest byte
/// holds the thread rotated left by 3, and the four clock bits above its
/// lower half repeat bits 16 to 19 of the clock field below.
pub open spec fn holds128(id: u128, node_id: u16, shard_id: u8, thread_id: u8) -> bool {
    &&& (id >> 84) & 0xFFF == (node_id & 0xFFF) as u128
    &&& (id >> 76) & 0xFF == shard_id as u128
    &&& (id >> 68) & 0xFF == thread_id as u128
    &&& id & 0xFF == rotl8(thread_id, 3) as u128
    &&& (id >> 64) & 0xF == (id >> 48) & 0xF
}

/// The 64-bit identifiers of a node, shard and thread are the numbers that
/// hold them in their fields; the timestamp and the sequence field may hold
/// anything.
pub proof fn lemma_is_id64(id: u64, node_id: u16, shard_id: u8, thread_id: u8)
    ensures
        is_id64(id, node_id, shard_id, thread_id) <==> holds64(id, node_id, shard_id, thread_id),
{
    if holds64(id, node_id, shard_id, thread_id) {
        assert(id == id64(id >> 44, node_id, shard_id, thread_id, id & 0xFFFF)) by (bit_vector)
            requires
                (id >> 32) & 0xFFF == (node_id & 0xFFF) as u64,
                (id >> 24) & 0xFF == shard_id as u64,
                (id >> 16) & 0xFF == thread_id as u64,
        ;
    }
    if is_id64(id, node_id, shard_id, thread_id) {
        let (ts, seq) = choose|ts: u64, seq: u64|
            id == id64(ts, node_id, shard_id, thread_id, seq);
        lemma_id64_fields(ts, node_id, shard_id, thread_id, seq);
    }
}

/// The 128-bit identifiers of a node, shard and thread are the numbers that
/// hold them in their fields; the timestamp, the clock field and the
/// sequence field may hold anything.
pub proof fn lemma_is_id128(id: u128, node_id: u16, shard_id: u8, thread_id: u8)
    ensures
        is_id128(id, node_id, shard_id, thread_id) <==> holds128(
            id,
            node_id,
            shard_id,
            thread_id,
        ),
{
    if holds128(id, node_id, shard_id, thread_id) {
        let ts = (id >> 96) as u64;
        let nanos = ((id >> 32) & 0xFFFF_FFFF) as u64;
        let seq = ((id >> 8) & 0xFF_FFFF) as u64;
        assert(id == id128(ts, nanos, node_id, shard_id, thread_id, seq)) by (bit_vector)
            requires
                ts == (id >> 96) as u64,
                nanos == ((id >> 32) & 0xFFFF_FFFF) as u64,
                seq == ((id >> 8) & 0xFF_FFFF) as u64,
                (id >> 84) & 0xFFF == (node_id & 0xFFF) as u128,
                (id >> 76) & 0xFF == shard_id as u128,
                (id >> 68) & 0xFF == thread_id as u128,
                id & 0xFF == rotl8(thread_id, 3) as u128,
                (id >> 64) & 0xF == (id >> 48) & 0xF,
        ;
    }
    if is_id128(id, node_id, shard_id, thread_id) {
        let (ts, nanos, seq) = choose|ts: u64, nanos: u64, seq: u64|
            id == id128(ts, nanos, node_id, shard_id, thread_id, seq);
        lemma_id128_fields(ts, nanos, node_id, shard_id, thread_id, seq);
        assert((nanos >> 16) & 0xF == ((nanos & 0xFFFF_FFFF) >> 16) & 0xF) by (bit_vector);
        assert((id >> 32) & 0xFFFF_FFFF == (nanos & 0xFFFF_FFFF) as u128 ==> (id >> 48) & 0xF == (((
        nanos & 0xFFFF_FFFF) >> 16) & 0xF) as u128) by (bit_vector);
    }
}

impl<'a> IdGenerator<'a> {
    /// A generator for the given node and shard that draws on `state`.
    pub fn new(node_id: u16, shard_id: u8, state: &'a SharedState) -> (generator: Self)
        ensures
            generator.node_id == node_id,
            generator.shard_id == shard_id,
            generator.state == state,
    {
        Self { node_id, shard_id, state }
    }

    /// The milliseconds that have passed since the epoch in force, zero
    /// while the epoch lies in the future.
    fn timestamp(&self) -> (ts: u64) {
        let now = unix_millis();
        elapsed_since(now, self.state.load_epoch())
    }

    /// The nanosecond clock.
    fn nanos(&self) -> (nanos: u64) {
        unix_nanos()
    }

    /// Makes a 24-bit identifier: the low 24 bits of the next sequence
    /// number. After 2^24 calls the identifiers come round again.
    pub fn gen24(&self) -> (id: u32)
        ensures
            is_id24(id),
            id < 0x100_0000,
    {
        let seq = self.state.next24();
        pack24(seq)
    }

    /// Makes a 32-bit identifier: the thread in the top byte, below it the
    /// low 24 bits of the next sequence number.
    pub fn gen32(&self, thread_id: u8) -> (id: u32)
        ensures
            is_id32(id, thread_id),
            id >> 24 == thread_id as u32,
    {
        let seq = self.state.next32();
        proof {
            lemma_id32_fields(thread_id, seq);
        }
        pack32(thread_id, seq)
    }

    /// Makes a 64-bit identifier from the time since the epoch, the
    /// generator's node and shard, the thread and the next sequence number.
    pub fn gen64(&self, thread_id: u8) -> (id: u64)
        ensures
            is_id64(id, self.node_id, self.shard_id, thread_id),
            holds64(id, self.node_id, self.shard_id, thread_id),
            (id >> 16) & 0xFF == thread_id as u64,
    {
        let ts = self.timestamp();
        let seq = self.state.next64();
        proof {
            lemma_id64_fields(ts, self.node_id, self.shard_id, thread_id, seq);
        }
        pack64(ts, self.node_id, self.shard_id, thread_id, seq)
    }

    /// Makes a 128-bit identifier from the time since the epoch, the
    /// nanosecond clock, the generator's node and shard, the thread and the
    /// next sequence number.
    pub fn gen128(&self, thread_id: u8) -> (id: u128)
        ensures
            is_id128(id, self.node_id, self.shard_id, thread_id),
            holds128(id, self.node_id, self.shard_id, thread_id),
    {
        let ts = self.timestamp();
        let nanos = self.nanos();
        let seq = self.state.next128();
        let id = pack128(ts, nanos, self.node_id, self.shard_id, thread_id, seq);
        proof {
            lemma_is_id128(id, self.node_id, self.shard_id, thread_id);
        }
        id
    }

    /// Makes a 256-bit identifier, as four limbs, from the time since the
    /// epoch, the nanosecond clock, the generator's node and shard, the
    /// thread and the next sequence number.
    pub fn gen256(&self, thread_id: u8) -> (id: [u64; 4])
        ensures
            is_id256(id@, self.node_id, self.shard_id, thread_id),
    {
        let ts = self.timestamp();
        let nanos = self.nanos();
        let seq = self.state.next256();
        pack256(ts, nanos, self.node_id, self.shard_id, thread_id, seq)
    }
}

/// While the epoch lies in the future the timestamp reads zero, and so do
/// the timestamp fields of the identifiers made from it: the top 20 bits of
/// a 64-bit identifier and of the first limb of a 256-bit one, and the top
/// 32 bits of a 128-bit identifier.
pub proof fn lemma_future_epoch_reads_zero(
    now: u64,
    epoch: u64,
    nanos: u64,
    node_id: u16,
    shard_id: u8,
    thread_id: u8,
    seq: u64,
)
    requires
        epoch >= now,
    ensures
        elapsed(now, epoch) == 0,
        id64(elapsed(now, epoch), node_id, shard_id, thread_id, seq) >> 44 == 0,
        id128(elapsed(now, epoch), nanos, node_id, shard_id, thread_id, seq) >> 96 == 0,
        id256(elapsed(now, epoch), nanos, node_id, shard_id, thread_id, seq)[0] >> 44 == 0,
{
    lemma_id64_fields(0, node_id, shard_id, thread_id, seq);
    lemma_id128_fields(0, nanos, node_id, shard_id, thread_id, seq);
    assert(0u64 & 0xF_FFFF == 0 && 0u64 & 0xFFFF_FFFF == 0) by (bit_vector);
}

/// The generator that the text identifiers are made with: node 1, shard 0.
pub fn xgen<'a>(state: &'a SharedState) -> (generator: IdGenerator<'a>)
    ensures
        generator.node_id == DEFAULT_NODE,
        generator.shard_id == DEFAULT_SHARD,
        generator.state == state,
{
    IdGenerator::new(DEFAULT_NODE, DEFAULT_SHARD, state)
}

} // verus!
