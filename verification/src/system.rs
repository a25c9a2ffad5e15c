//! The platform allocator, as far as this library calls it.

use crate::layout::Layout;
use allocator_api2::alloc::Allocator;
use vstd::prelude::*;

verus! {

/// `allocator_api2`'s allocation failure. It has no fields; verified code
/// only passes it on.
#[verifier::external_type_specification]
#[verifier::external_body]
pub struct ExAllocError(allocator_api2::alloc::AllocError);

/// A block of memory handed out by the platform allocator: the address of its
/// first byte and the number of bytes it spans. Whoever holds the value owns
/// the memory, so a block is neither copied nor cloned.
#[derive(Debug)]
pub struct MemoryBlock {
    addr: usize,
    len: usize,
}

impl MemoryBlock {
    /// The address of the first byte.
    pub closed spec fn spec_addr(&self) -> usize {
        self.addr
    }

    /// The number of usable bytes.
    pub closed spec fn spec_len(&self) -> usize {
        self.len
    }

    /// The address of the first byte.
    #[verifier::when_used_as_spec(spec_addr)]
    pub fn addr(&self) -> (a: usize)
        ensures
            a == self.spec_addr(),
    {
        self.addr
    }

    /// The number of usable bytes.
    #[verifier::when_used_as_spec(spec_len)]
    pub fn len(&self) -> (n: usize)
        ensures
            n == self.spec_len(),
    {
        self.len
    }
}

/// Asks the platform allocator for a block that fits `layout`.
///
/// The body is not verified. It turns `layout` into a `core::alloc::Layout`
/// and calls `allocator_api2`'s `Allocator::allocate` on `System`; the
/// contract says of that call what the crate's source shows. A request for
/// zero bytes is answered without the platform, with an empty block at the
/// address `layout.align()`. Any other request goes to the platform: a null
/// answer becomes the error, every other answer a block of exactly
/// `layout.size()` bytes, aligned as `layout` asks. The pointer of a block is
/// never null. Its address is exposed, so that the holder of the block can
/// turn the address into a pointer again.
#[verifier::external_body]
pub(crate) fn system_allocate(layout: Layout) -> (r: Result<
    MemoryBlock,
    allocator_api2::alloc::AllocError,
>)
    requires
        layout.wf(),
    ensures
        layout.size() == 0 ==> r is Ok,
        r matches Ok(block) ==> {
            &&& block.len() == layout.size()
            &&& block.addr() != 0
            &&& block.addr() % layout.align() == 0
        },
{
    match core::alloc::Layout::from_size_align(layout.size(), layout.align()) {
        Ok(raw) => match allocator_api2::alloc::System.allocate(raw) {
            Ok(p) => Ok(MemoryBlock { addr: p.cast::<u8>().expose_provenance().get(), len: p.len() }),
            Err(e) => Err(e),
        },
        Err(_) => Err(allocator_api2::alloc::AllocError),
    }
}

} // verus!
