//! The state that all generators of a process share: the epoch from which
//! timestamps are counted, and one sequence counter for each kind of
//! identifier. Every access is a single atomic operation with relaxed
//! ordering, so the state can be shared between threads without a lock.

use vstd::prelude::*;
use std::sync::atomic::AtomicU64;
use std::sync::atomic::Ordering;

verus! {

/// The epoch in force until another is set: 2022-05-01 00:00:00 UTC, in
/// milliseconds since the Unix epoch.
pub const DEFAULT_EPOCH: u64 = 1_651_363_200_000;

/// The shared state. Generators built with different nodes and shards still
/// draw from the same counters when they are handed the same state.
pub struct SharedState {
    epoch: AtomicU64,
    seq24: AtomicU64,
    seq32: AtomicU64,
    seq64: AtomicU64,
    seq128: AtomicU64,
    seq256: AtomicU64,
    sequential: AtomicU64,
    sequential58: AtomicU64,
    sequential91: AtomicU64,
    sequential36: AtomicU64,
    sequential16: AtomicU64,
}

impl SharedState {
    /// A fresh state: the default epoch, and every counter at zero.
    pub fn new() -> (state: Self) {
        SharedState {
            epoch: AtomicU64::new(DEFAULT_EPOCH),
            seq24: AtomicU64::new(0),
            seq32: AtomicU64::new(0),
            seq64: AtomicU64::new(0),
            seq128: AtomicU64::new(0),
            seq256: AtomicU64::new(0),
            sequential: AtomicU64::new(0),
            sequential58: AtomicU64::new(0),
            sequential91: AtomicU64::new(0),
            sequential36: AtomicU64::new(0),
            sequential16: AtomicU64::new(0),
        }
    }

    /// The epoch now in force.
    pub(crate) fn load_epoch(&self) -> (ms: u64) {
        self.epoch.load(Ordering::Relaxed)
    }

    /// Puts another epoch in force.
    pub(crate) fn store_epoch(&self, ms: u64) {
        self.epoch.store(ms, Ordering::Relaxed)
    }

    /// Takes the next sequence number for 24-bit identifiers.
    pub(crate) fn next24(&self) -> (seq: u64) {
        self.seq24.fetch_add(1, Ordering::Relaxed)
    }

    /// Takes the next sequence number for 32-bit identifiers.
    pub(crate) fn next32(&self) -> (seq: u64) {
        self.seq32.fetch_add(1, Ordering::Relaxed)
    }

    /// Takes the next sequence number for 64-bit identifiers.
    pub(crate) fn next64(&self) -> (seq: u64) {
        self.seq64.fetch_add(1, Ordering::Relaxed)
    }

    /// Takes the next sequence number for 128-bit identifiers.
    pub(crate) fn next128(&self) -> (seq: u64) {
        self.seq128.fetch_add(1, Ordering::Relaxed)
    }

    /// Takes the next sequence number for 256-bit identifiers.
    pub(crate) fn next256(&self) -> (seq: u64) {
        self.seq256.fetch_add(1, Ordering::Relaxed)
    }

    /// Takes the next number of the plain sequential identifiers.
    pub(crate) fn next_sequential(&self) -> (seq: u64) {
        self.sequential.fetch_add(1, Ordering::Relaxed)
    }

    /// Takes the next number of the sequential base-58 identifiers.
    pub(crate) fn next_sequential58(&self) -> (seq: u64) {
        self.sequential58.fetch_add(1, Ordering::Relaxed)
    }

    /// Takes the next number of the sequential base-91 identifiers.
    pub(crate) fn next_sequential91(&self) -> (seq: u64) {
        self.sequential91.fetch_add(1, Ordering::Relaxed)
    }

    /// Takes the next number of the sequential base-36 identifiers.
    pub(crate) fn next_sequential36(&self) -> (seq: u64) {
        self.sequential36.fetch_add(1, Ordering::Relaxed)
    }

    /// Takes the next number of the sequential hexadecimal identifiers.
    pub(crate) fn next_sequential16(&self) -> (seq: u64) {
        self.sequential16.fetch_add(1, Ordering::Relaxed)
    }
}

/// The settings that hold for the whole process: the epoch.
pub struct AtomicOption;

impl AtomicOption {
    /// Sets the epoch, in milliseconds since the Unix epoch. Identifiers made
    /// after the store count their timestamps from it; those made before are
    /// as they were.
    pub fn epoch(state: &SharedState, ms: u64) {
        state.store_epoch(ms)
    }

    /// The epoch now in force, in milliseconds since the Unix epoch.
    pub fn get_epoch(state: &SharedState) -> (ms: u64) {
        state.load_epoch()
    }

    /// Puts the default epoch back in force.
    pub fn reset_epoch(state: &SharedState) {
        state.store_epoch(DEFAULT_EPOCH)
    }
}

} // verus!
