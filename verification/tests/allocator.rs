use berrylite::micro_allocator::{ArenaAllocator, BumpArenaAllocator};
use berrylite::micro_errors::BLiteError;

#[test]
fn align_up_rounds_to_power_of_two() {
    assert_eq!(BumpArenaAllocator::align_up(0, 8), 0);
    assert_eq!(BumpArenaAllocator::align_up(1, 8), 8);
    assert_eq!(BumpArenaAllocator::align_up(8, 8), 8);
    assert_eq!(BumpArenaAllocator::align_up(9, 8), 16);
    assert_eq!(BumpArenaAllocator::align_up(13, 1), 13);
    assert_eq!(BumpArenaAllocator::align_up(4097, 4096), 8192);
}

#[test]
fn new_allocator_describes_empty_arena() {
    let a = BumpArenaAllocator::new(0x1000, 256);
    assert_eq!(a.description(), Ok((256, 0x1000)));
}

#[test]
fn allocations_are_aligned_and_disjoint() {
    let mut a = BumpArenaAllocator::new(0x1001, 256);
    let p1 = a.allocate(10, 8).unwrap();
    assert_eq!(p1, 0x1008);
    assert_eq!(a.description(), Ok((256, 0x1012)));
    let p2 = a.allocate(4, 16).unwrap();
    assert_eq!(p2, 0x1020);
    assert!(p1 + 10 <= p2);
    assert_eq!(p2 % 16, 0);
    assert_eq!(a.description(), Ok((256, 0x1024)));
}

#[test]
fn allocation_fills_arena_exactly() {
    let mut a = BumpArenaAllocator::new(0, 64);
    assert_eq!(a.allocate(64, 1), Ok(0));
    assert_eq!(a.description(), Ok((64, 64)));
    assert_eq!(a.allocate(0, 1), Ok(64));
}

#[test]
fn failed_allocation_changes_nothing() {
    let mut a = BumpArenaAllocator::new(0x100, 32);
    assert_eq!(a.allocate(8, 4), Ok(0x100));
    assert_eq!(a.allocate(32, 4), Err(BLiteError::FailedToAllocateMemory));
    assert_eq!(a.description(), Ok((32, 0x108)));
    // alignment pushes the start past the end
    assert_eq!(a.allocate(1, 64), Err(BLiteError::FailedToAllocateMemory));
    assert_eq!(a.description(), Ok((32, 0x108)));
    assert_eq!(a.allocate(24, 8), Ok(0x108));
}

#[test]
fn allocation_whose_end_overflows_fails() {
    let mut a = BumpArenaAllocator::new(16, 32);
    assert_eq!(a.allocate(usize::MAX, 1), Err(BLiteError::FailedToAllocateMemory));
    assert_eq!(a.description(), Ok((32, 16)));
}
