use rustos::bump_pointer::{
    Allocator, BlockMove, BumpPointer, __rust_allocate, __rust_deallocate, __rust_reallocate, __rust_reallocate_finish,
    __rust_reallocate_inplace, __rust_usable_size,
};

#[test]
fn new_reports_whole_region() {
    let mut b = BumpPointer::new(15 * 1024 * 1024, 20 * 1024 * 1024);
    assert_eq!(b.debug(), (15 * 1024 * 1024, 5 * 1024 * 1024));
}

#[test]
fn allocate_rounds_up_to_alignment() {
    let mut b = BumpPointer::new(10, 100);
    assert_eq!(b.allocate(5, 8), Some(16));
    assert_eq!(b.debug(), (21, 79));
}

#[test]
fn allocate_aligned_start_is_not_moved() {
    let mut b = BumpPointer::new(64, 128);
    assert_eq!(b.allocate(4, 16), Some(64));
    assert_eq!(b.debug(), (68, 60));
}

#[test]
fn allocate_align_one() {
    let mut b = BumpPointer::new(3, 10);
    assert_eq!(b.allocate(7, 1), Some(3));
    assert_eq!(b.debug(), (10, 0));
}

#[test]
fn allocate_exactly_fills_region() {
    let mut b = BumpPointer::new(0, 32);
    assert_eq!(b.allocate(32, 4), Some(0));
    assert_eq!(b.allocate(0, 1), Some(32));
    assert_eq!(b.allocate(1, 1), None);
}

#[test]
fn refused_allocation_changes_nothing() {
    let mut b = BumpPointer::new(10, 100);
    assert_eq!(b.allocate(90, 8), None);
    assert_eq!(b.debug(), (10, 90));
    assert_eq!(b.allocate(84, 8), Some(16));
}

#[test]
fn alignment_padding_can_cause_refusal() {
    let mut b = BumpPointer::new(1, 20);
    assert_eq!(b.allocate(17, 4), None);
    assert_eq!(b.allocate(16, 4), Some(4));
}

#[test]
fn successive_allocations_are_disjoint() {
    let mut b = BumpPointer::new(1000, 2000);
    let p1 = b.allocate(13, 4).unwrap();
    let p2 = b.allocate(7, 32).unwrap();
    let p3 = b.allocate(1, 1).unwrap();
    assert_eq!((p1, p2, p3), (1000, 1024, 1031));
    assert!(p1 + 13 <= p2 && p2 + 7 <= p3);
    assert_eq!(p2 % 32, 0);
}

#[test]
fn deallocate_never_gives_memory_back() {
    let mut b = BumpPointer::new(0, 64);
    let p = b.allocate(16, 8).unwrap();
    b.deallocate(p, 16, 8);
    assert_eq!(b.debug(), (16, 48));
    assert_eq!(b.allocate(8, 8), Some(16));
}

#[test]
fn reallocate_moves_into_a_new_block() {
    let mut b = BumpPointer::new(0, 64);
    let p = b.allocate(8, 8).unwrap();
    let (q, copy) = b.reallocate(p, 8, 20, 8);
    assert_eq!(q, Some(8));
    assert_eq!(copy, Some(BlockMove { dest: 8, src: 0, count: 8 }));
    b.finish_reallocate(copy, 8);
    assert_eq!(b.debug(), (28, 36));
}

#[test]
fn reallocate_failure_moves_nothing() {
    let mut b = BumpPointer::new(0, 16);
    let p = b.allocate(8, 8).unwrap();
    assert_eq!(b.reallocate(p, 8, 16, 8), (None, None));
    b.finish_reallocate(None, 8);
    assert_eq!(b.debug(), (8, 8));
}

#[test]
fn inplace_and_usable_size_defaults() {
    let mut b = BumpPointer::new(0, 16);
    assert_eq!(b.reallocate_inplace(0, 5, 9, 1), 5);
    assert_eq!(b.usable_size(9, 4), 9);
    assert_eq!(b.debug(), (0, 16));
}

#[test]
fn runtime_entry_points() {
    let mut b = BumpPointer::new(10, 40);
    assert_eq!(__rust_allocate(&mut b, 8, 16), 16);
    assert_eq!(__rust_allocate(&mut b, 100, 1), 0);
    __rust_deallocate(&mut b, 16, 8, 16);
    let (p, copy) = __rust_reallocate(&mut b, 16, 8, 4, 4);
    assert_eq!((p, copy), (24, Some(BlockMove { dest: 24, src: 16, count: 8 })));
    __rust_reallocate_finish(&mut b, copy, 4);
    assert_eq!(__rust_reallocate(&mut b, 24, 4, 100, 4), (0, None));
    __rust_reallocate_finish(&mut b, None, 4);
    assert_eq!(__rust_reallocate_inplace(&mut b, 24, 4, 8, 4), 4);
    assert_eq!(__rust_usable_size(&mut b, 12, 4), 12);
    assert_eq!(b.debug(), (28, 12));
}

#[test]
fn can_allocate_matches_arithmetic_limits() {
    let b = BumpPointer::new(10, 100);
    assert!(b.can_allocate(5, 8));
    assert!(!b.can_allocate(5, 0));
    assert!(b.can_allocate(usize::MAX - 16, 8));
    assert!(!b.can_allocate(usize::MAX - 15, 8));
    let high = BumpPointer::new(usize::MAX - 3, usize::MAX);
    assert!(high.can_allocate(0, 3));
    assert!(!high.can_allocate(0, 4));
}

#[test]
fn next_free_follows_allocations() {
    let mut b = BumpPointer::new(5, 50);
    assert_eq!(b.next_free(), 5);
    b.allocate(3, 2).unwrap();
    assert_eq!(b.next_free(), 9);
}
