//! Memory-management core of a small language runtime: a pluggable
//! allocation abstraction.  A consumer obtains an allocator handle (the
//! process-default one, or one adapted from a user-supplied allocation
//! capability) and requests or releases typed memory through it; the handle
//! forwards each request to its backend after promoting the alignment and
//! computing the byte size.

mod alignment;
mod allocator;
mod heap;

pub use crate::alignment::array_byte_size;
pub use crate::alignment::lemma_promoted_align_dominates;
pub use crate::alignment::promoted_align;
pub use crate::alignment::spec_promoted_align;
pub use crate::allocator::lemma_oom_propagation;
pub use crate::allocator::AllocError;
pub use crate::allocator::Allocator;
pub use crate::allocator::ArrayPtr;
pub use crate::allocator::IAllocator;
pub use crate::allocator::ObjPtr;
pub use crate::heap::lemma_heap_alloc_addr;
pub use crate::heap::lemma_heap_regions_disjoint;
pub use crate::heap::lemma_round_up;
pub use crate::heap::lemma_write_read_byte;
pub use crate::heap::spec_heap_alloc_addr;
pub use crate::heap::spec_round_up;
pub use crate::heap::SystemHeap;
pub use crate::heap::DEFAULT_HEAP_BYTES;
