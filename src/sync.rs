//! A cell split between threads, and an atomic cell for a 32-bit float held
//! as its bit pattern.

use std::sync::atomic::{AtomicU32, Ordering};
use std::sync::Arc;
use vstd::prelude::*;

verus! {

/// A value with a part shared between threads and a part owned by one thread.
///
/// The shared part lives behind an `Arc` and any number of handles to it may
/// be handed out with [Sharer::get_shared]. The owned part is a plain field:
/// reaching it takes the `Sharer` itself, so whoever holds the `Sharer` (the
/// audio thread, once the `Sharer` is moved there) is the only one who can
/// mutate it, and Rust enforces that at compile time.
pub struct Sharer<S: Sync, O> {
    pub shared: Arc<S>,
    pub owned: O,
}

/// Relies on `Arc::clone`: the new handle points to the same value as `a`.
#[verifier::external_body]
fn share_handle<S>(a: &Arc<S>) -> (r: Arc<S>)
    ensures
        *r == **a,
{
    Arc::clone(a)
}

impl<S: Sync, O> Sharer<S, O> {
    /// Binds a shared part and an owned part together.
    pub fn new(shared: S, owned: O) -> (r: Self)
        ensures
            *r.shared == shared,
            r.owned == owned,
    {
        Sharer { shared: Arc::new(shared), owned }
    }

    /// Returns a new handle to the shared part.
    pub fn get_shared(&self) -> (r: Arc<S>)
        ensures
            *r == *self.shared,
    {
        share_handle(&self.shared)
    }
}

/// An atomic 32-bit float, with only `load`, `store` and `swap` operations.
///
/// The float is held as its bit pattern in an [AtomicU32]; callers convert
/// with `f32::to_bits` and `f32::from_bits`, which round-trip every bit
/// pattern. Any thread may store into the cell at any time, so nothing is
/// promised of which value a load sees beyond its being one that was stored.
#[derive(Debug)]
pub struct AtomicF32 {
    bits: AtomicU32,
}

impl AtomicF32 {
    /// A cell holding the float whose bit pattern is `bits`.
    pub fn from_bits(bits: u32) -> (r: Self) {
        AtomicF32 { bits: AtomicU32::new(bits) }
    }

    /// Atomically loads the bit pattern of the current value.
    pub fn load_bits(&self, order: Ordering) -> (r: u32) {
        self.bits.load(order)
    }

    /// Atomically stores the value whose bit pattern is `bits`.
    pub fn store_bits(&self, bits: u32, order: Ordering) {
        self.bits.store(bits, order)
    }

    /// Atomically stores `bits` and returns the bit pattern it replaced.
    pub fn swap_bits(&self, bits: u32, order: Ordering) -> (r: u32) {
        self.bits.swap(bits, order)
    }
}

} // verus!
