//! The tracking allocator: it forwards each request to the platform
//! allocator and counts the bytes of every request that was granted.
//!
//! The counts are kept in a [`Ledger`]. A [`TrackingAllocator`] holds
//! nothing: every operation is told which ledger to count in, so that any
//! number of handles, however they were made, feed the same pair of counters.

use crate::counters::{Counters, Stats};
use crate::layout::Layout;
use crate::system::{system_allocate, MemoryBlock};
use vstd::prelude::*;

verus! {

/// The one failure of an allocator: the platform could not provide the block.
#[derive(Debug, Clone, Copy, PartialEq, Eq, Structural)]
pub struct AllocationFailure;

/// One accounting domain: the bytes allocated and the bytes deallocated
/// since the last reset.
///
/// One value is one pair of counters. A ledger cannot be copied or cloned,
/// and there is no default one: whatever is to be counted together is
/// counted in the same value. Each counter holds 64 bits and starts again
/// from zero when it would exceed them. Every update goes through
/// `&mut Ledger`: whoever shares a ledger between threads hands it out to
/// one caller at a time, so that each update is applied whole.
#[derive(Debug)]
pub struct Ledger {
    alloc: u64,
    dealloc: u64,
}

impl View for Ledger {
    type V = Counters;

    closed spec fn view(&self) -> Counters {
        Counters { alloc: self.alloc as nat, dealloc: self.dealloc as nat }
    }
}

impl Ledger {
    /// A ledger in which nothing has been counted yet.
    pub fn new() -> (ledger: Ledger)
        ensures
            ledger@ == Counters::zero(),
            ledger@.in_range(),
    {
        Ledger { alloc: 0, dealloc: 0 }
    }

    /// The counters of every ledger lie within the counters' range.
    pub proof fn lemma_in_range(&self)
        ensures
            self@.in_range(),
    {
    }
}

/// A handle on the tracking allocator. It has no state of its own: all
/// handles are alike, and what they count goes to the ledger they are given.
#[derive(Debug, Clone, Copy, PartialEq, Eq, Structural)]
pub struct TrackingAllocator;

impl TrackingAllocator {
    /// Sets both counters of `ledger` to zero.
    pub fn reset(ledger: &mut Ledger)
        ensures
            final(ledger)@ == old(ledger)@.reset(),
            final(ledger)@.in_range(),
    {
        ledger.alloc = 0;
        ledger.dealloc = 0;
    }

    /// Counts `layout.size()` bytes as allocated.
    pub fn record_alloc(ledger: &mut Ledger, layout: Layout)
        ensures
            final(ledger)@ == old(ledger)@.record_alloc(layout.size() as nat),
            old(ledger)@.in_range() && final(ledger)@.in_range(),
    {
        ledger.alloc = ledger.alloc.wrapping_add(layout.size() as u64);
    }

    /// Counts `layout.size()` bytes as deallocated.
    pub fn record_dealloc(ledger: &mut Ledger, layout: Layout)
        ensures
            final(ledger)@ == old(ledger)@.record_dealloc(layout.size() as nat),
            old(ledger)@.in_range() && final(ledger)@.in_range(),
    {
        ledger.dealloc = ledger.dealloc.wrapping_add(layout.size() as u64);
    }

    /// The current counters of `ledger` and their difference. Nothing changes.
    pub fn stats(ledger: &Ledger) -> (s: Stats)
        ensures
            s.alloc == ledger@.alloc,
            s.dealloc == ledger@.dealloc,
            s.diff == ledger@.diff(),
            ledger@.in_range(),
    {
        Stats::new(ledger.alloc, ledger.dealloc)
    }

    /// Takes the platform's answer to a request for `layout` and counts the
    /// request in `ledger` if, and only if, it was granted. A granted block
    /// is passed on as it came; a refusal becomes [`AllocationFailure`].
    pub fn settle(
        &self,
        ledger: &mut Ledger,
        layout: Layout,
        outcome: Result<MemoryBlock, allocator_api2::alloc::AllocError>,
    ) -> (r: Result<MemoryBlock, AllocationFailure>)
        ensures
            outcome matches Ok(block) ==> r == Ok::<MemoryBlock, AllocationFailure>(block),
            outcome is Err ==> r == Err::<MemoryBlock, AllocationFailure>(AllocationFailure),
            final(ledger)@ == old(ledger)@.settle(layout.size() as nat, outcome is Ok),
            outcome is Err ==> final(ledger)@ == old(ledger)@,
            old(ledger)@.in_range() && final(ledger)@.in_range(),
    {
        match outcome {
            Ok(block) => {
                TrackingAllocator::record_alloc(ledger, layout);
                Ok(block)
            },
            Err(_) => {
                proof {
                    ledger.lemma_in_range();
                }
                Err(AllocationFailure)
            },
        }
    }

    /// Requests a block that fits `layout` from the platform allocator and
    /// counts it in `ledger`.
    ///
    /// A granted request is counted and its block returned: it spans exactly
    /// `layout.size()` bytes and belongs to the caller. A refused request
    /// leaves the counters as they were. Whether a request for one or more
    /// bytes is granted is the platform's decision; a request for no bytes
    /// is always granted.
    pub fn allocate(&self, ledger: &mut Ledger, layout: Layout) -> (r: Result<
        MemoryBlock,
        AllocationFailure,
    >)
        ensures
            layout.size() == 0 ==> r is Ok,
            r matches Ok(block) ==> {
                &&& block.len() == layout.size()
                &&& block.addr() != 0
                &&& block.addr() % layout.align() == 0
            },
            r matches Err(e) ==> e == AllocationFailure,
            final(ledger)@ == old(ledger)@.settle(layout.size() as nat, r is Ok),
            r is Err ==> final(ledger)@ == old(ledger)@,
            old(ledger)@.in_range() && final(ledger)@.in_range(),
    {
        proof {
            use_type_invariant(&layout);
        }
        let outcome = system_allocate(layout);
        self.settle(ledger, layout, outcome)
    }
}

impl Default for TrackingAllocator {
    fn default() -> (handle: TrackingAllocator)
        ensures
            handle == TrackingAllocator,
    {
        TrackingAllocator
    }
}

} // verus!
