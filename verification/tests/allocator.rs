use std::cell::RefCell;
use std::rc::Rc;

use sync_lang::array_byte_size;
use sync_lang::promoted_align;
use sync_lang::Allocator;
use sync_lang::IAllocator;
use sync_lang::SystemHeap;
use sync_lang::DEFAULT_HEAP_BYTES;

/// A capability backed by a growable byte store shared with the test, so
/// the test can write into and read back from the memory it hands out.
struct TestAllocator {
    mem: Rc<RefCell<Vec<u8>>>,
    next: usize,
}

impl IAllocator for TestAllocator {
    fn allocate(&mut self, len: usize, align: usize) -> usize {
        let rem = self.next % align;
        let addr = if rem == 0 { self.next } else { self.next + (align - rem) };
        let mut mem = self.mem.borrow_mut();
        while mem.len() < addr + len {
            mem.push(0);
        }
        self.next = addr + len;
        addr
    }

    fn free(&mut self, _buf: usize, _len: usize, _align: usize) {}

    fn teardown(&mut self) {}
}

#[test]
fn iallocator_impl() {
    let mem = Rc::new(RefCell::new(vec![0u8]));
    let test_alloc = TestAllocator { mem: Rc::clone(&mem), next: 1 };
    let mut allocator = test_alloc.allocator();
    let value = allocator.alloc_array::<u8>(13).unwrap();
    {
        let mut store = mem.borrow_mut();
        for (i, b) in "Hello, world!".bytes().enumerate() {
            store[value.addr + i] = b;
        }
    }
    let store = mem.borrow();
    let s = std::str::from_utf8(&store[value.addr..value.addr + 13]).expect("Should be valid utf8");
    assert_eq!(s, "Hello, world!");
}

#[test]
fn default_round_trip() {
    let mut alloc: Allocator<SystemHeap> = Allocator::default();
    let arr = alloc.alloc_array::<u8>(13).unwrap();
    let bytes = "Hello, world!".as_bytes();
    for i in 0..13 {
        alloc.write_byte(arr.addr + i, bytes[i]);
    }
    let mut got = Vec::new();
    for i in 0..13 {
        got.push(alloc.read_byte(arr.addr + i));
    }
    assert_eq!(got, bytes.to_vec());

    let other = alloc.alloc_array::<u8>(13).unwrap();
    assert!(other.addr >= arr.addr + 13 || arr.addr >= other.addr + 13);
    for i in 0..13 {
        alloc.write_byte(other.addr + i, 0xAA);
    }
    for i in 0..13 {
        assert_eq!(alloc.read_byte(arr.addr + i), bytes[i]);
    }
}

/// A capability that records the exact arguments of every allocate and
/// free call it observes, through handles the test keeps clones of.
struct CountingAllocator {
    allocs: Rc<RefCell<Vec<(usize, usize)>>>,
    frees: Rc<RefCell<Vec<(usize, usize, usize)>>>,
}

impl IAllocator for CountingAllocator {
    fn allocate(&mut self, len: usize, align: usize) -> usize {
        self.allocs.borrow_mut().push((len, align));
        0x1000
    }

    fn free(&mut self, buf: usize, len: usize, align: usize) {
        self.frees.borrow_mut().push((buf, len, align));
    }

    fn teardown(&mut self) {}
}

#[test]
fn alignment_promotion_observed() {
    let allocs = Rc::new(RefCell::new(Vec::new()));
    let frees = Rc::new(RefCell::new(Vec::new()));
    let cap = CountingAllocator { allocs: Rc::clone(&allocs), frees: Rc::clone(&frees) };
    let mut h = cap.allocator();

    // Requesting alignment 4 for an 8-byte-aligned type: the backend must
    // observe alignment 8, never the smaller value.
    h.alloc_aligned_object::<u64>(4).unwrap();
    assert_eq!(allocs.borrow().last().copied(), Some((8, 8)));

    // Requesting a larger alignment than natural: the requested one wins.
    h.alloc_aligned_object::<u8>(16).unwrap();
    assert_eq!(allocs.borrow().last().copied(), Some((1, 16)));

    // The release path recomputes the same promoted alignment.
    let p = h.alloc_aligned_object::<u64>(4).unwrap();
    h.free_aligned_object::<u64>(p, 4);
    assert_eq!(frees.borrow().last().copied(), Some((p.addr, 8, 8)));
}

#[test]
fn custom_adapter_forwarding() {
    let allocs = Rc::new(RefCell::new(Vec::new()));
    let frees = Rc::new(RefCell::new(Vec::new()));
    let cap = CountingAllocator { allocs: Rc::clone(&allocs), frees: Rc::clone(&frees) };
    let mut h = cap.allocator();

    let obj = h.alloc_object::<u64>().unwrap();
    let arr = h.alloc_array::<u32>(5).unwrap();
    let aligned_obj = h.alloc_aligned_object::<u16>(8).unwrap();
    let aligned_arr = h.alloc_aligned_array::<u8>(10, 4).unwrap();
    assert_eq!(*allocs.borrow(), vec![(8, 8), (20, 4), (2, 8), (10, 4)]);

    h.free_object::<u64>(obj);
    h.free_array::<u32>(arr);
    h.free_aligned_object::<u16>(aligned_obj, 8);
    h.free_aligned_array::<u8>(aligned_arr, 4);
    assert_eq!(
        *frees.borrow(),
        vec![
            (obj.addr, 8, 8),
            (arr.addr, 20, 4),
            (aligned_obj.addr, 2, 8),
            (aligned_arr.addr, 10, 4),
        ]
    );
    // One backend call per typed operation, and no more.
    assert_eq!(allocs.borrow().len(), 4);
    assert_eq!(frees.borrow().len(), 4);
}

/// A backend that can never satisfy a request: every allocation answers
/// with the null address.
struct NullAllocator;

impl IAllocator for NullAllocator {
    fn allocate(&mut self, _len: usize, _align: usize) -> usize {
        0
    }

    fn free(&mut self, _buf: usize, _len: usize, _align: usize) {}

    fn teardown(&mut self) {}
}

#[test]
fn oom_propagation() {
    let mut h = NullAllocator.allocator();
    assert!(h.alloc_object::<u64>().is_err());
    assert!(h.alloc_array::<u8>(13).is_err());
    assert!(h.alloc_aligned_object::<u32>(16).is_err());
    assert!(h.alloc_aligned_array::<u16>(4, 8).is_err());
}

/// A capability that counts its own teardown invocations and carries a
/// marker the test can watch for leaks.
struct CountingTeardown {
    teardown_count: usize,
    marker: Rc<()>,
}

impl IAllocator for CountingTeardown {
    fn allocate(&mut self, _len: usize, _align: usize) -> usize {
        0x2000
    }

    fn free(&mut self, _buf: usize, _len: usize, _align: usize) {}

    fn teardown(&mut self) {
        self.teardown_count += 1;
    }
}

#[test]
fn adapter_exactly_once_teardown() {
    let marker = Rc::new(());
    let cap = CountingTeardown { teardown_count: 0, marker: Rc::clone(&marker) };
    let h = cap.allocator();
    let torn_down = h.destroy();
    assert_eq!(torn_down.teardown_count, 1);
    drop(torn_down);
    assert_eq!(Rc::strong_count(&marker), 1);
}

#[test]
fn alignment_math() {
    assert_eq!(promoted_align(8, 4), 8);
    assert_eq!(promoted_align(4, 16), 16);
    assert_eq!(promoted_align(8, 8), 8);
    assert_eq!(promoted_align(1, 1), 1);
    assert_eq!(array_byte_size(4, 5), 20);
    assert_eq!(array_byte_size(1, 13), 13);
}

#[test]
fn system_heap_never_null_and_aligned() {
    let mut heap = SystemHeap::new(64);
    let a1 = heap.allocate(13, 1);
    assert_eq!(a1, 1);
    let a2 = heap.allocate(7, 8);
    assert_eq!(a2, 16);
    assert_eq!(a2 % 8, 0);
    let a3 = heap.allocate(100, 1);
    assert_eq!(a3, 0);
}

#[test]
fn system_heap_oom_through_handle() {
    let mut h = Allocator::init(SystemHeap::new(32));
    assert!(h.alloc_array::<u8>(64).is_err());
    assert!(h.alloc_object::<u64>().is_ok());
}

#[test]
fn system_heap_capacity() {
    let heap = SystemHeap::new(64);
    assert_eq!(heap.capacity(), 64);
    let handle: Allocator<SystemHeap> = Allocator::default();
    let torn_down = handle.destroy();
    assert_eq!(torn_down.capacity(), DEFAULT_HEAP_BYTES);
}

#[test]
fn free_retires_region() {
    let mut h = Allocator::init(SystemHeap::new(64));
    let arr = h.alloc_array::<u8>(8).unwrap();
    h.free_array::<u8>(arr);
    let other = h.alloc_array::<u8>(8).unwrap();
    assert!(other.addr >= arr.addr + 8);
}
