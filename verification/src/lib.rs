//! A memory-usage tracking allocator: every allocation and deallocation is
//! counted in bytes, so that the live footprint of a data structure can be
//! read off as the difference of two counters.

pub mod allocator;
pub mod counters;
pub mod laws;
pub mod layout;
pub mod system;

pub use crate::allocator::{AllocationFailure, Ledger, TrackingAllocator};
pub use crate::counters::{Counters, Stats};
pub use crate::layout::{Layout, LayoutError};
pub use crate::system::MemoryBlock;
