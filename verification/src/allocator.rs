//! The allocator abstraction: the backend contract every allocation
//! capability must satisfy, the handle consumers pass around, and the typed
//! allocation operations layered on top of it.
//!
//! Memory addresses are modelled as plain machine words: the address `0` is
//! the null address, the value a backend hands back when it cannot satisfy a
//! request.  A typed operation never forwards a zero size or a zero
//! alignment to its backend, and never hands a null address back to its
//! caller as a success.

use core::marker::PhantomData;
use vstd::prelude::*;

use crate::alignment::promoted_align;
use crate::alignment::spec_promoted_align;

verus! {

/// The recoverable error of every allocation operation: the backend could
/// not satisfy the request.  Callers must handle it; it is never a crash.
pub type AllocError = ();

/// The contract an allocation capability must satisfy — the verified
/// rendering of the backend dispatch table.  `allocate` hands back the
/// address of a fresh region of `len` bytes aligned to `align`, or the null
/// address `0` when it cannot; `free` releases a region previously handed
/// out; `teardown` runs the capability's own cleanup, once, when the
/// adapter that owns it is destroyed.
///
/// Each capability describes its own behaviour through the three relation
/// spec functions; the typed operations' contracts are stated over them, so
/// a caller that knows the concrete capability knows exactly what each
/// operation did to it and what the backend observed.
pub trait IAllocator: Sized {
    /// The capability's own well-formedness invariant.  A capability with
    /// no invariant of its own leaves the default, which holds always.
    open spec fn wf(&self) -> bool {
        true
    }

    /// How one `allocate` call relates the capability's state before
    /// (`self`) and after (`post`) to the returned address `ret`
    /// (`0` standing for null).  The default promises nothing.
    open spec fn allocate_post(&self, len: usize, align: usize, post: Self, ret: usize) -> bool {
        true
    }

    /// How one `free` call relates the state before and after.  The
    /// default promises nothing.
    open spec fn free_post(&self, buf: usize, len: usize, align: usize, post: Self) -> bool {
        true
    }

    /// How the one teardown call relates the state before and after.  The
    /// default promises nothing.
    open spec fn teardown_post(&self, post: Self) -> bool {
        true
    }

    /// Requests `len` bytes aligned to `align`; `0` means out of memory.
    /// Zero sizes and alignments are contract violations and are excluded.
    fn allocate(&mut self, len: usize, align: usize) -> (ret: usize)
        requires
            old(self).wf(),
            len > 0,
            align > 0,
        ensures
            final(self).wf(),
            old(self).allocate_post(len, align, *final(self), ret),
    ;

    /// Releases the `len` bytes at `buf`, which must be a non-null address
    /// previously handed out by `allocate` with this very size and
    /// alignment.  A null address, a zero size or a zero alignment is a
    /// contract violation and is excluded.
    fn free(&mut self, buf: usize, len: usize, align: usize)
        requires
            old(self).wf(),
            buf > 0,
            len > 0,
            align > 0,
        ensures
            final(self).wf(),
            old(self).free_post(buf, len, align, *final(self)),
    ;

    /// The capability's own cleanup; invoked exactly once, by
    /// [`Allocator::destroy`], over the adapter's lifetime.
    fn teardown(&mut self)
        requires
            old(self).wf(),
        ensures
            old(self).teardown_post(*final(self)),
    ;

    /// Adapts this capability into an allocator handle that owns it — the
    /// handle becomes the capability's single owner, and the capability's
    /// `teardown` runs exactly once, when the handle is destroyed.
    fn allocator(self) -> (h: Allocator<Self>)
        requires
            self.wf(),
        ensures
            h.backend() == self,
    {
        Allocator { backend: self }
    }
}

/// A non-null typed address of one object of type `T`, as handed out by an
/// allocation operation.  It carries no ownership: releasing it is the
/// caller's duty, through the handle that allocated it, with the same type
/// and alignment.
pub struct ObjPtr<T> {
    /// The non-null address of the object.
    pub addr: usize,
    /// Marks the object type the address was allocated for.
    pub marker: PhantomData<T>,
}

/// A non-null typed address of an array of `len` elements of type `T`.  The
/// element count travels with the address so that a release request can
/// recompute the very byte size the allocation request used.
pub struct ArrayPtr<T> {
    /// The non-null address of the first element.
    pub addr: usize,
    /// The number of elements the region was allocated for.
    pub len: usize,
    /// Marks the element type the address was allocated for.
    pub marker: PhantomData<T>,
}

impl<T> Clone for ObjPtr<T> {
    fn clone(&self) -> (c: Self)
        ensures
            c == *self,
    {
        ObjPtr { addr: self.addr, marker: PhantomData }
    }
}

impl<T> Copy for ObjPtr<T> {

}

impl<T> Clone for ArrayPtr<T> {
    fn clone(&self) -> (c: Self)
        ensures
            c == *self,
    {
        ArrayPtr { addr: self.addr, len: self.len, marker: PhantomData }
    }
}

impl<T> Copy for ArrayPtr<T> {

}

/// The allocator handle: the one value every consumer programs against.  It
/// owns its backend capability; the default, process-heap-like backend is
/// [`crate::SystemHeap`].
pub struct Allocator<A> {
    pub(crate) backend: A,
}

impl<A> Allocator<A> {
    /// The capability behind the handle.
    pub closed spec fn backend(&self) -> A {
        self.backend
    }

    /// The capability behind the handle, borrowed read-only.
    pub(crate) fn backend_ref(&self) -> (b: &A)
        ensures
            *b == self.backend(),
    {
        &self.backend
    }

    /// The capability behind the handle, borrowed for mutation.
    pub(crate) fn backend_mut(&mut self) -> (b: &mut A)
        ensures
            *b == old(self).backend(),
            final(self).backend() == *final(b),
    {
        &mut self.backend
    }
}

impl<A: IAllocator> Allocator<A> {
    /// A handle is well formed when its backend is.
    pub open spec fn wf(&self) -> bool {
        self.backend().wf()
    }

    /// Builds a handle directly from a backend capability.  The handle
    /// becomes the capability's single owner.
    pub fn init(backend: A) -> (h: Allocator<A>)
        requires
            backend.wf(),
        ensures
            h.wf(),
            h.backend() == backend,
    {
        Allocator { backend }
    }

    /// Requests memory for one object of type `T` at its natural alignment.
    /// The backend observes exactly one allocation request of
    /// `size_of::<T>()` bytes at alignment `align_of::<T>()`; a null answer
    /// becomes the out-of-memory error, any other becomes the object's
    /// non-null address.
    pub fn alloc_object<T>(&mut self) -> (r: Result<ObjPtr<T>, AllocError>)
        requires
            old(self).wf(),
            size_of::<T>() > 0,
        ensures
            final(self).wf(),
            (r matches Ok(p) ==> p.addr != 0 && old(self).backend().allocate_post(
                size_of::<T>() as usize,
                align_of::<T>() as usize,
                final(self).backend(),
                p.addr,
            )),
            (r is Err ==> old(self).backend().allocate_post(
                size_of::<T>() as usize,
                align_of::<T>() as usize,
                final(self).backend(),
                0,
            )),
    {
        vstd::layout::layout_for_type_is_valid::<T>();
        let natural: usize = core::mem::align_of::<T>();
        self.alloc_aligned_object::<T>(natural)
    }

    /// Requests memory for an array of `len` objects of type `T` at the
    /// type's natural alignment.  The backend observes exactly one request
    /// of `size_of::<T>() * len` bytes at alignment `align_of::<T>()`.
    pub fn alloc_array<T>(&mut self, len: usize) -> (r: Result<ArrayPtr<T>, AllocError>)
        requires
            old(self).wf(),
            len > 0,
            size_of::<T>() > 0,
            size_of::<T>() * len <= usize::MAX,
        ensures
            final(self).wf(),
            (r matches Ok(p) ==> p.addr != 0 && p.len == len && old(self).backend().allocate_post(
                (size_of::<T>() * len) as usize,
                align_of::<T>() as usize,
                final(self).backend(),
                p.addr,
            )),
            (r is Err ==> old(self).backend().allocate_post(
                (size_of::<T>() * len) as usize,
                align_of::<T>() as usize,
                final(self).backend(),
                0,
            )),
    {
        vstd::layout::layout_for_type_is_valid::<T>();
        let natural: usize = core::mem::align_of::<T>();
        self.alloc_aligned_array::<T>(len, natural)
    }

    /// Requests memory for one object of type `T` at the requested
    /// alignment, promoted so that it never under-aligns: the backend
    /// observes exactly one request of `size_of::<T>()` bytes at alignment
    /// `max(align_of::<T>(), align)`.
    pub fn alloc_aligned_object<T>(&mut self, align: usize) -> (r: Result<ObjPtr<T>, AllocError>)
        requires
            old(self).wf(),
            align > 0,
            size_of::<T>() > 0,
        ensures
            final(self).wf(),
            (r matches Ok(p) ==> p.addr != 0 && old(self).backend().allocate_post(
                size_of::<T>() as usize,
                spec_promoted_align(align_of::<T>() as usize, align),
                final(self).backend(),
                p.addr,
            )),
            (r is Err ==> old(self).backend().allocate_post(
                size_of::<T>() as usize,
                spec_promoted_align(align_of::<T>() as usize, align),
                final(self).backend(),
                0,
            )),
    {
        vstd::layout::layout_for_type_is_valid::<T>();
        let size: usize = core::mem::size_of::<T>();
        if size == 0 || align == 0 {
            // A zero size or alignment is a contract violation: fatal for
            // the offending call path, never converted into a value.  The
            // preconditions prove this branch unreachable.
            return unreached();
        }
        let natural: usize = core::mem::align_of::<T>();
        let actual: usize = promoted_align(natural, align);
        let ret: usize = self.backend.allocate(size, actual);
        if ret == 0 {
            Err(())
        } else {
            Ok(ObjPtr { addr: ret, marker: PhantomData })
        }
    }

    /// Requests memory for an array of `len` objects of type `T` at the
    /// requested alignment, promoted so that it never under-aligns: the
    /// backend observes exactly one request of `size_of::<T>() * len` bytes
    /// at alignment `max(align_of::<T>(), align)`.
    pub fn alloc_aligned_array<T>(&mut self, len: usize, align: usize) -> (r: Result<
        ArrayPtr<T>,
        AllocError,
    >)
        requires
            old(self).wf(),
            len > 0,
            align > 0,
            size_of::<T>() > 0,
            size_of::<T>() * len <= usize::MAX,
        ensures
            final(self).wf(),
            (r matches Ok(p) ==> p.addr != 0 && p.len == len && old(self).backend().allocate_post(
                (size_of::<T>() * len) as usize,
                spec_promoted_align(align_of::<T>() as usize, align),
                final(self).backend(),
                p.addr,
            )),
            (r is Err ==> old(self).backend().allocate_post(
                (size_of::<T>() * len) as usize,
                spec_promoted_align(align_of::<T>() as usize, align),
                final(self).backend(),
                0,
            )),
    {
        vstd::layout::layout_for_type_is_valid::<T>();
        let elem_size: usize = core::mem::size_of::<T>();
        if elem_size == 0 || len == 0 || align == 0 {
            // A zero size, length or alignment is a contract violation:
            // fatal for the offending call path, never converted into a
            // value.  The preconditions prove this branch unreachable.
            return unreached();
        }
        let natural: usize = core::mem::align_of::<T>();
        let actual: usize = promoted_align(natural, align);
        let size: usize = crate::alignment::array_byte_size(elem_size, len);
        proof {
            vstd::arithmetic::mul::lemma_mul_strictly_positive(elem_size as int, len as int);
        }
        let ret: usize = self.backend.allocate(size, actual);
        if ret == 0 {
            Err(())
        } else {
            Ok(ArrayPtr { addr: ret, len, marker: PhantomData })
        }
    }

    /// Releases one object of type `T` allocated at its natural alignment.
    /// The backend observes exactly one release of the object's address
    /// with the very size and alignment the matching allocation used.
    pub fn free_object<T>(&mut self, obj: ObjPtr<T>)
        requires
            old(self).wf(),
            obj.addr != 0,
            size_of::<T>() > 0,
        ensures
            final(self).wf(),
            old(self).backend().free_post(
                obj.addr,
                size_of::<T>() as usize,
                align_of::<T>() as usize,
                final(self).backend(),
            ),
    {
        vstd::layout::layout_for_type_is_valid::<T>();
        let natural: usize = core::mem::align_of::<T>();
        self.free_aligned_object::<T>(obj, natural)
    }

    /// Releases an array of objects of type `T` allocated at the type's
    /// natural alignment.
    pub fn free_array<T>(&mut self, arr: ArrayPtr<T>)
        requires
            old(self).wf(),
            arr.addr != 0,
            arr.len > 0,
            size_of::<T>() > 0,
            size_of::<T>() * arr.len <= usize::MAX,
        ensures
            final(self).wf(),
            old(self).backend().free_post(
                arr.addr,
                (size_of::<T>() * arr.len) as usize,
                align_of::<T>() as usize,
                final(self).backend(),
            ),
    {
        vstd::layout::layout_for_type_is_valid::<T>();
        let natural: usize = core::mem::align_of::<T>();
        self.free_aligned_array::<T>(arr, natural)
    }

    /// Releases one object of type `T` allocated at the given requested
    /// alignment.  The alignment is promoted exactly as the matching
    /// allocation promoted it, so the backend observes the same arguments.
    pub fn free_aligned_object<T>(&mut self, obj: ObjPtr<T>, align: usize)
        requires
            old(self).wf(),
            obj.addr != 0,
            align > 0,
            size_of::<T>() > 0,
        ensures
            final(self).wf(),
            old(self).backend().free_post(
                obj.addr,
                size_of::<T>() as usize,
                spec_promoted_align(align_of::<T>() as usize, align),
                final(self).backend(),
            ),
    {
        vstd::layout::layout_for_type_is_valid::<T>();
        let size: usize = core::mem::size_of::<T>();
        if obj.addr == 0 || size == 0 || align == 0 {
            // Releasing the null address, or with a zero size or
            // alignment, is a contract violation: fatal for the offending
            // call path.  The preconditions prove this branch unreachable.
            return unreached();
        }
        let natural: usize = core::mem::align_of::<T>();
        let actual: usize = promoted_align(natural, align);
        self.backend.free(obj.addr, size, actual);
    }

    /// Releases an array of objects of type `T` allocated at the given
    /// requested alignment, recomputing the byte size and the promoted
    /// alignment exactly as the matching allocation did.
    pub fn free_aligned_array<T>(&mut self, arr: ArrayPtr<T>, align: usize)
        requires
            old(self).wf(),
            arr.addr != 0,
            arr.len > 0,
            align > 0,
            size_of::<T>() > 0,
            size_of::<T>() * arr.len <= usize::MAX,
        ensures
            final(self).wf(),
            old(self).backend().free_post(
                arr.addr,
                (size_of::<T>() * arr.len) as usize,
                spec_promoted_align(align_of::<T>() as usize, align),
                final(self).backend(),
            ),
    {
        vstd::layout::layout_for_type_is_valid::<T>();
        let elem_size: usize = core::mem::size_of::<T>();
        if arr.addr == 0 || elem_size == 0 || arr.len == 0 || align == 0 {
            // Releasing the null address, or with a zero size, length or
            // alignment, is a contract violation: fatal for the offending
            // call path.  The preconditions prove this branch unreachable.
            return unreached();
        }
        let natural: usize = core::mem::align_of::<T>();
        let actual: usize = promoted_align(natural, align);
        let size: usize = crate::alignment::array_byte_size(elem_size, arr.len);
        proof {
            vstd::arithmetic::mul::lemma_mul_strictly_positive(elem_size as int, arr.len as int);
        }
        self.backend.free(arr.addr, size, actual);
    }

    /// Destroys the handle: runs the owned capability's `teardown` exactly
    /// once and hands the torn-down capability back to the caller, who may
    /// inspect it and lets it go out of scope.  Because `destroy` consumes
    /// the handle, no operation — and no second `destroy` — can ever reach
    /// the capability through the handle again.
    pub fn destroy(self) -> (b: A)
        requires
            self.wf(),
        ensures
            self.backend().teardown_post(b),
    {
        let Allocator { backend: mut b } = self;
        b.teardown();
        b
    }
}

/// Out-of-memory propagation: against a backend that can only ever answer
/// with the null address, the only outcome consistent with an allocation
/// operation's contract is the out-of-memory error — never a success, and
/// never a null address dressed up as one.  `outcome` is the address
/// carried by a successful result, `None` standing for the error.
pub proof fn lemma_oom_propagation<A: IAllocator>(
    pre: A,
    post: A,
    len: usize,
    align: usize,
    outcome: Option<usize>,
)
    requires
        forall|next: A, ret: usize| pre.allocate_post(len, align, next, ret) ==> ret == 0,
        match outcome {
            Some(addr) => addr != 0 && pre.allocate_post(len, align, post, addr),
            None => pre.allocate_post(len, align, post, 0),
        },
    ensures
        outcome is None,
{
}

} // verus!
