//! The mathematical model of the accounting: two byte counters, the steps
//! that change them, and the snapshot that reports them.

use crate::layout::Layout;
use vstd::prelude::*;

verus! {

/// The number of values a counter can take: a counter that reaches it starts
/// again from zero.
pub open spec fn counter_range() -> nat {
    0x1_0000_0000_0000_0000
}

/// The state of the accounting: the bytes allocated and the bytes
/// deallocated since the last reset.
pub struct Counters {
    pub alloc: nat,
    pub dealloc: nat,
}

impl Counters {
    /// Both counters at zero: the state at startup and after a reset.
    pub open spec fn zero() -> Counters {
        Counters { alloc: 0, dealloc: 0 }
    }

    /// Whether both counters lie within the counters' range, as those of
    /// every ledger do.
    pub open spec fn in_range(self) -> bool {
        self.alloc < counter_range() && self.dealloc < counter_range()
    }

    /// The state after a reset, whatever it was before.
    pub open spec fn reset(self) -> Counters {
        Counters::zero()
    }

    /// The state after `size` more bytes were allocated.
    pub open spec fn record_alloc(self, size: nat) -> Counters {
        Counters { alloc: (self.alloc + size) % counter_range(), dealloc: self.dealloc }
    }

    /// The state after `size` more bytes were deallocated.
    pub open spec fn record_dealloc(self, size: nat) -> Counters {
        Counters { alloc: self.alloc, dealloc: (self.dealloc + size) % counter_range() }
    }

    /// The state after a request for `size` bytes that the platform granted
    /// or refused: only a granted request is counted.
    pub open spec fn settle(self, size: nat, granted: bool) -> Counters {
        if granted {
            self.record_alloc(size)
        } else {
            self
        }
    }

    /// The net number of bytes: allocated minus deallocated.
    pub open spec fn diff(self) -> int {
        self.alloc - self.dealloc
    }

    /// The state after each layout of `layouts`, in order, was allocated and
    /// at once deallocated again.
    pub open spec fn paired(self, layouts: Seq<Layout>) -> Counters
        decreases layouts.len(),
    {
        if layouts.len() == 0 {
            self
        } else {
            let size = layouts.last().spec_size() as nat;
            self.paired(layouts.drop_last()).record_alloc(size).record_dealloc(size)
        }
    }

    /// The state after `n` allocations of `size` bytes each.
    pub open spec fn repeated(self, size: nat, n: nat) -> Counters
        decreases n,
    {
        if n == 0 {
            self
        } else {
            self.repeated(size, (n - 1) as nat).record_alloc(size)
        }
    }
}

/// A snapshot of the counters, with their difference.
#[derive(Debug, Clone, Copy, PartialEq, Eq, Structural)]
pub struct Stats {
    /// Bytes allocated since the last reset.
    pub alloc: u64,
    /// Bytes deallocated since the last reset.
    pub dealloc: u64,
    /// `alloc` minus `dealloc`: negative when more was deallocated than allocated.
    pub diff: i128,
}

impl Stats {
    /// The snapshot of two counter values.
    pub fn new(alloc: u64, dealloc: u64) -> (s: Stats)
        ensures
            s.alloc == alloc,
            s.dealloc == dealloc,
            s.diff == alloc - dealloc,
    {
        Stats { alloc, dealloc, diff: alloc as i128 - dealloc as i128 }
    }
}

} // verus!
