use my_os::bump::BumpAllocator;
use my_os::dummy::Dummy;

fn fresh(start: usize, size: usize) -> BumpAllocator {
    let mut b = BumpAllocator::new();
    b.init(start, size);
    b
}

#[test]
fn new_is_empty() {
    let b = BumpAllocator::new();
    assert_eq!(b.heap_start, 0);
    assert_eq!(b.heap_end, 0);
    assert_eq!(b.next, 0);
    assert_eq!(b.allocations, 0);
}

#[test]
fn init_sets_bounds() {
    let b = fresh(4096, 1024);
    assert_eq!(b.heap_start, 4096);
    assert_eq!(b.heap_end, 5120);
    assert_eq!(b.next, 4096);
    assert_eq!(b.allocations, 0);
}

#[test]
fn alignment_of_every_result() {
    // For power-of-two alignments, every address handed out is a multiple
    // of the requested alignment.
    let mut b = fresh(1, 4096);
    for &align in &[1usize, 2, 4, 8, 16, 32, 64, 128] {
        for &size in &[1usize, 3, 7, 12] {
            let addr = b.allocate(size, align).expect("heap should not be exhausted");
            assert_eq!(addr % align, 0);
        }
    }
}

#[test]
fn first_allocation_exact_address() {
    let mut b = fresh(1000, 100);
    // Cursor 1000 rounded up to alignment 16 is 1008.
    assert_eq!(b.allocate(10, 16), Some(1008));
    assert_eq!(b.next, 1018);
    assert_eq!(b.allocations, 1);
}

#[test]
fn regions_increasing_and_disjoint() {
    let mut b = fresh(0, 4096);
    let mut regions: Vec<(usize, usize)> = Vec::new();
    for &(size, align) in &[(10usize, 4usize), (1, 1), (32, 16), (5, 8), (100, 2)] {
        let addr = b.allocate(size, align).unwrap();
        for &(a, s) in &regions {
            // strictly increasing starts, no overlap with any earlier region
            assert!(a < addr);
            assert!(a + s <= addr);
        }
        regions.push((addr, size));
    }
}

#[test]
fn bulk_reclaim_in_any_order() {
    let mut b = fresh(64, 1000);
    let a1 = b.allocate(10, 1).unwrap();
    let a2 = b.allocate(20, 1).unwrap();
    let a3 = b.allocate(30, 1).unwrap();
    let after = b.next;
    // Deallocation order differs from allocation order.
    b.deallocate(a2, 20, 1);
    assert_eq!(b.next, after);
    assert_eq!(b.allocations, 2);
    b.deallocate(a3, 30, 1);
    assert_eq!(b.next, after);
    // The last deallocation resets the cursor to the start of the region.
    b.deallocate(a1, 10, 1);
    assert_eq!(b.next, 64);
    assert_eq!(b.allocations, 0);
    // A subsequent allocation sequence behaves as on a fresh heap.
    let mut f = fresh(64, 1000);
    for &(size, align) in &[(10usize, 2usize), (7, 4), (100, 8)] {
        assert_eq!(b.allocate(size, align), f.allocate(size, align));
        assert_eq!(b.next, f.next);
    }
}

#[test]
fn oom_boundary() {
    // A request that would pass heap_end always fails; one byte less
    // always succeeds on an otherwise empty heap.
    let mut b = fresh(0, 1024);
    assert_eq!(b.allocate(1025, 1), None);
    assert_eq!(b.allocations, 0);
    assert_eq!(b.allocate(1024, 1), Some(0));

    // The same boundary with alignment padding taken into account: the
    // cursor 100 rounds up to 104, leaving 96 bytes of the 200-byte heap.
    let mut c = fresh(100, 100);
    assert_eq!(c.allocate(97, 8), None);
    assert_eq!(c.next, 100);
    assert_eq!(c.allocate(96, 8), Some(104));
    assert_eq!(c.next, 200);
}

#[test]
fn failed_allocation_changes_nothing() {
    let mut b = fresh(16, 32);
    let before_next = b.next;
    let before_count = b.allocations;
    assert_eq!(b.allocate(1000, 4), None);
    assert_eq!(b.next, before_next);
    assert_eq!(b.allocations, before_count);
}

#[test]
fn zero_sized_allocation_succeeds() {
    let mut b = fresh(8, 8);
    assert_eq!(b.allocate(0, 4), Some(8));
    assert_eq!(b.next, 8);
    assert_eq!(b.allocations, 1);
}

#[test]
fn dummy_always_fails() {
    let d = Dummy;
    assert_eq!(d.allocate(1, 1), None);
    assert_eq!(d.allocate(0, 1), None);
    assert_eq!(d.allocate(4096, 4096), None);
}

#[test]
fn trivial_assertion() {
    assert_eq!(1, 1);
}
