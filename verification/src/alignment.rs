//! Pure alignment and size arithmetic shared by every typed allocation
//! operation.  These are explicit functions of the type's layout and the
//! caller's request, with no hidden state.

use vstd::prelude::*;

verus! {

/// The alignment a backend actually observes: the larger of the target
/// type's natural alignment and the alignment the caller requested.
pub open spec fn spec_promoted_align(natural: usize, requested: usize) -> usize {
    if natural > requested {
        natural
    } else {
        requested
    }
}

/// Computes the promoted alignment for an allocation or release request.
pub fn promoted_align(natural: usize, requested: usize) -> (r: usize)
    ensures
        r == spec_promoted_align(natural, requested),
{
    if natural > requested {
        natural
    } else {
        requested
    }
}

/// Alignment promotion never under-aligns: the promoted alignment is at
/// least the type's natural alignment, at least the requested one, and is
/// always one of the two (the maximum), never a smaller value.
pub proof fn lemma_promoted_align_dominates(natural: usize, requested: usize)
    ensures
        spec_promoted_align(natural, requested) >= natural,
        spec_promoted_align(natural, requested) >= requested,
        spec_promoted_align(natural, requested) == natural || spec_promoted_align(
            natural,
            requested,
        ) == requested,
{
}

/// The number of bytes occupied by an array of `len` elements, each of
/// `elem_size` bytes.
pub fn array_byte_size(elem_size: usize, len: usize) -> (r: usize)
    requires
        elem_size * len <= usize::MAX,
    ensures
        r == elem_size * len,
{
    elem_size * len
}

} // verus!
