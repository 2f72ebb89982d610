//! The default allocation backend: a model of the process heap.  It is an
//! arena of bytes that hands out fresh, aligned, non-overlapping regions by
//! advancing a bump mark; released regions are retired, never handed out
//! again, so a region never overlaps any other live allocation.  Address
//! `0` is reserved as the null address and is never handed out.

use vstd::arithmetic::div_mod::lemma_fundamental_div_mod;
use vstd::arithmetic::div_mod::lemma_mod_bound;
use vstd::arithmetic::div_mod::lemma_mod_multiples_basic;
use vstd::prelude::*;

use crate::allocator::Allocator;
use crate::allocator::IAllocator;

verus! {

/// The capacity, in bytes, of the arena behind the default allocator
/// handle.
pub const DEFAULT_HEAP_BYTES: usize = 4096;

/// The default allocation backend: a bump arena over a fixed store of
/// bytes.  The bump mark starts at `1`, so the null address `0` is never
/// handed out; every address below the mark is spoken for.
pub struct SystemHeap {
    data: Vec<u8>,
    next: usize,
}

/// The smallest multiple of `align` at or above `n`.
pub open spec fn spec_round_up(n: nat, align: nat) -> nat
    recommends
        align > 0,
{
    if n % align == 0 {
        n
    } else {
        (n + align - n % align) as nat
    }
}

/// The address with which an arena at bump mark `bump` and capacity `cap`
/// answers a request for `len` bytes at alignment `align`: the smallest
/// aligned address at or above the mark, or the null address `0` when the
/// region would not fit.
pub open spec fn spec_heap_alloc_addr(bump: nat, cap: nat, len: nat, align: nat) -> nat
    recommends
        align > 0,
        len > 0,
{
    let a = spec_round_up(bump, align);
    if a + len <= cap {
        a
    } else {
        0
    }
}

/// Rounding up to an alignment boundary lands on a multiple of the
/// alignment, never moves down, and moves up by less than one alignment.
pub proof fn lemma_round_up(n: nat, align: nat)
    requires
        align > 0,
    ensures
        spec_round_up(n, align) >= n,
        spec_round_up(n, align) % align == 0,
        spec_round_up(n, align) < n + align,
{
    let r = n % align;
    lemma_mod_bound(n as int, align as int);
    if r != 0 {
        lemma_fundamental_div_mod(n as int, align as int);
        let q = n as int / align as int;
        let v = spec_round_up(n, align);
        assert(v == n + align - r);
        assert(v == (q + 1) * (align as int)) by (nonlinear_arith)
            requires
                v == n + align - r,
                n as int == (align as int) * q + (r as int),
        ;
        lemma_mod_multiples_basic(q + 1, align as int);
    }
}

/// A successful answer of the arena is never null, is aligned as
/// requested, lies at or above the bump mark, and fits inside the
/// capacity.
pub proof fn lemma_heap_alloc_addr(bump: nat, cap: nat, len: nat, align: nat)
    requires
        align > 0,
        len > 0,
        bump >= 1,
    ensures
        ({
            let a = spec_heap_alloc_addr(bump, cap, len, align);
            a != 0 ==> a % align == 0 && a >= bump && a + len <= cap
        }),
{
    lemma_round_up(bump, align);
}

/// Round-trip integrity, the non-overlap half: two successive successful
/// allocations from the arena occupy disjoint byte regions — the second
/// region begins at or above the end of the first.
pub proof fn lemma_heap_regions_disjoint(
    h0: SystemHeap,
    h1: SystemHeap,
    h2: SystemHeap,
    len1: usize,
    align1: usize,
    r1: usize,
    len2: usize,
    align2: usize,
    r2: usize,
)
    requires
        align1 > 0,
        align2 > 0,
        h0.allocate_post(len1, align1, h1, r1),
        r1 != 0,
        h1.allocate_post(len2, align2, h2, r2),
        r2 != 0,
    ensures
        r1 + len1 <= r2,
{
    lemma_round_up(h1.mark(), align2 as nat);
}

/// Round-trip integrity, the byte half: writing a byte into the store and
/// reading the same address back yields exactly the byte written, and the
/// write leaves every other address — in particular every byte of any
/// disjoint region — unchanged.
pub proof fn lemma_write_read_byte(m: Seq<u8>, addr: int, b: u8, other: int)
    requires
        0 <= addr < m.len(),
        0 <= other < m.len(),
        other != addr,
    ensures
        m.update(addr, b)[addr] == b,
        m.update(addr, b)[other] == m[other],
{
}

impl SystemHeap {
    /// The bytes of the arena's store.
    pub closed spec fn mem(&self) -> Seq<u8> {
        self.data@
    }

    /// The bump mark: the store below it is spoken for.
    pub closed spec fn mark(&self) -> nat {
        self.next as nat
    }

    /// A fresh arena over `capacity` zeroed bytes, with nothing handed
    /// out yet.
    pub fn new(capacity: usize) -> (h: SystemHeap)
        ensures
            h.wf(),
            h.mark() == 1,
            h.mem().len() == capacity,
            forall|i: int| 0 <= i < capacity ==> h.mem()[i] == 0u8,
    {
        let mut data: Vec<u8> = Vec::new();
        while data.len() < capacity
            invariant
                data@.len() <= capacity,
                forall|i: int| 0 <= i < data@.len() ==> data@[i] == 0u8,
            decreases capacity - data.len(),
        {
            data.push(0u8);
        }
        SystemHeap { data, next: 1 }
    }

    /// The arena's capacity in bytes.
    pub fn capacity(&self) -> (c: usize)
        ensures
            c == self.mem().len(),
    {
        self.data.len()
    }

    /// Reads the byte at `addr` — the model's rendering of loading through
    /// a pointer into this heap.
    pub fn read_byte(&self, addr: usize) -> (b: u8)
        requires
            addr < self.mem().len(),
        ensures
            b == self.mem()[addr as int],
    {
        self.data[addr]
    }

    /// Writes the byte at `addr` — the model's rendering of storing
    /// through a pointer into this heap.  No other byte changes, and the
    /// bump mark stays where it was.
    pub fn write_byte(&mut self, addr: usize, b: u8)
        requires
            addr < old(self).mem().len(),
        ensures
            final(self).mem() == old(self).mem().update(addr as int, b),
            final(self).mark() == old(self).mark(),
    {
        self.data[addr] = b;
    }
}

impl IAllocator for SystemHeap {
    /// The mark never names the null address and never runs past the end
    /// of the store by more than the one position that means "full".
    open spec fn wf(&self) -> bool {
        1 <= self.mark() && self.mark() <= self.mem().len() + 1
    }

    /// One allocation answers with exactly [`spec_heap_alloc_addr`],
    /// leaves every byte of the store as it was, and on success moves the
    /// bump mark to the end of the handed-out region.
    open spec fn allocate_post(&self, len: usize, align: usize, post: Self, ret: usize) -> bool {
        &&& ret == spec_heap_alloc_addr(self.mark(), self.mem().len(), len as nat, align as nat)
        &&& post.mem() == self.mem()
        &&& post.mark() == if ret == 0 {
            self.mark() as int
        } else {
            ret + len
        }
    }

    /// Releasing retires the region: the arena keeps its store and its
    /// mark, and never hands the region out again.
    open spec fn free_post(&self, buf: usize, len: usize, align: usize, post: Self) -> bool {
        post.mem() == self.mem() && post.mark() == self.mark()
    }

    /// The default backend owns no state of its own to tear down.
    open spec fn teardown_post(&self, post: Self) -> bool {
        post.mem() == self.mem() && post.mark() == self.mark()
    }

    fn allocate(&mut self, len: usize, align: usize) -> (ret: usize) {
        let cap = self.data.len();
        let rem: usize = self.next % align;
        let addr: usize;
        if rem == 0 {
            addr = self.next;
        } else {
            let pad: usize = align - rem;
            if pad > cap {
                return 0;
            }
            if self.next > cap - pad {
                return 0;
            }
            addr = self.next + pad;
        }
        if addr > cap {
            return 0;
        }
        if len > cap - addr {
            return 0;
        }
        self.next = addr + len;
        addr
    }

    fn free(&mut self, buf: usize, len: usize, align: usize) {
    }

    fn teardown(&mut self) {
    }
}

impl Default for Allocator<SystemHeap> {
    /// The allocator consumers get when no explicit one is supplied: a
    /// handle over a fresh default heap of [`DEFAULT_HEAP_BYTES`] zeroed
    /// bytes.
    fn default() -> (h: Self)
        ensures
            h.wf(),
            h.backend().mark() == 1,
            h.backend().mem().len() == DEFAULT_HEAP_BYTES,
            forall|i: int| 0 <= i < DEFAULT_HEAP_BYTES ==> h.backend().mem()[i] == 0u8,
    {
        Allocator::init(SystemHeap::new(DEFAULT_HEAP_BYTES))
    }
}

impl Allocator<SystemHeap> {
    /// Reads the byte at `addr` in the heap behind this handle.
    pub fn read_byte(&self, addr: usize) -> (b: u8)
        requires
            addr < self.backend().mem().len(),
        ensures
            b == self.backend().mem()[addr as int],
    {
        let heap = self.backend_ref();
        heap.read_byte(addr)
    }

    /// Writes the byte at `addr` in the heap behind this handle.  No other
    /// byte changes, and the arena's bump mark stays where it was, so
    /// well-formedness is kept.
    pub fn write_byte(&mut self, addr: usize, b: u8)
        requires
            addr < old(self).backend().mem().len(),
        ensures
            final(self).backend().mem() == old(self).backend().mem().update(addr as int, b),
            final(self).backend().mark() == old(self).backend().mark(),
            old(self).wf() ==> final(self).wf(),
    {
        let heap = self.backend_mut();
        heap.write_byte(addr, b);
    }
}

} // verus!
