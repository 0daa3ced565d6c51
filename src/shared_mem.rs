use std::sync::atomic::{fence, AtomicUsize, Ordering};
use vstd::prelude::*;

verus! {

/// Relies on `core::sync::atomic::fence`: a fence of the given ordering, with
/// no value. It panics on `Relaxed`.
pub assume_specification[ core::sync::atomic::fence ](order: Ordering)
    requires
        order != Ordering::Relaxed,
;

/// One machine word shared between threads without a lock.
///
/// Reads and writes are single atomic accesses of the whole word, so they are
/// never torn. On their own they give coherence for this location only and no
/// ordering with other locations. Being relaxed atomics rather than volatile
/// accesses, adjacent ones may in principle be combined by the compiler.
///
/// What a read returns depends on the other threads, so no contract here
/// states it.
pub struct SharedMem {
    cell: AtomicUsize,
    initial: Ghost<usize>,
}

impl SharedMem {
    /// The word the cell was constructed with.
    pub closed spec fn initial(&self) -> usize {
        self.initial@
    }

    /// A cell holding `val`.
    pub fn new(val: usize) -> (r: Self)
        ensures
            r.initial() == val,
    {
        SharedMem { cell: AtomicUsize::new(val), initial: Ghost(val) }
    }

    /// One relaxed read of the cell (READ_ONCE), ordered only with the other
    /// accesses to this cell.
    pub fn read_once(&self) -> usize {
        self.cell.load(Ordering::Relaxed)
    }

    /// One relaxed write of `val` into the cell (WRITE_ONCE). It orders no
    /// other access with respect to other threads.
    pub fn write_once(&self, val: usize) {
        self.cell.store(val, Ordering::Relaxed);
    }

    /// A write of `val` that no earlier access of the calling thread, in
    /// program order, can be observed to follow by a thread that reads `val`
    /// here and then accesses memory through a dependency on it. Later
    /// accesses are not ordered by it.
    pub fn release_store(&self, val: usize) {
        self.cell.store(val, Ordering::Release);
    }

    /// Full two-way barrier (smp_mb): no access of the calling thread before
    /// it is observed by another thread to follow an access after it, nor the
    /// other way round. It makes no value visible by itself.
    pub fn smp_mb() {
        fence(Ordering::SeqCst);
    }
}

} // verus!
