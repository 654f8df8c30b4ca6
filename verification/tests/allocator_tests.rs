use lab_allocator::AllocError;
use lab_allocator::LabByteAllocator;
use lab_allocator::HEAD_BLOCK_SIZE;
use lab_allocator::HEAD_RESERVED;
use lab_allocator::HEAP_END;

// A start address whose region reaches HEAP_END exactly with FULL_SIZE bytes.
const START: u64 = 0xffff_ffc0_8000_0000;
const FULL_SIZE: u64 = 0x0800_0000;

fn full_region() -> LabByteAllocator {
    let mut a = LabByteAllocator::new();
    a.init(START, FULL_SIZE);
    a
}

#[test]
fn new_starts_empty() {
    let a = LabByteAllocator::new();
    assert_eq!(a.start, 0);
    assert_eq!(a.end, 0);
    assert_eq!(a.left_pos, 0);
    assert_eq!(a.right_pos, 0);
    assert_eq!(a.indicator, 0);
    assert_eq!(a.head_available, [true; 4]);
}

#[test]
fn init_places_cursors() {
    let a = full_region();
    assert_eq!(a.start, START);
    assert_eq!(a.end, START + FULL_SIZE);
    assert_eq!(a.end, HEAP_END);
    assert_eq!(a.left_pos, START + HEAD_RESERVED);
    assert_eq!(a.right_pos, HEAP_END);
    assert_eq!(a.indicator, 0);
    assert_eq!(a.head_available, [true; 4]);
}

#[test]
fn rejects_before_heap_end() {
    let mut a = LabByteAllocator::new();
    a.init(0x8000_0000, 0x10000);
    assert_eq!(a.allocate(64), Err(AllocError::NoMemory));
    assert_eq!(a.allocate(1), Err(AllocError::NoMemory));
    assert_eq!(a.allocate(0), Err(AllocError::NoMemory));
    // A rejected call changes nothing.
    assert_eq!(a.left_pos, 0x8000_0000 + HEAD_RESERVED);
    assert_eq!(a.right_pos, 0x8000_0000 + 0x10000);
    assert_eq!(a.indicator, 0);
}

#[test]
fn rejects_oversize_request() {
    let mut a = full_region();
    let available = a.available_bytes();
    assert_eq!(a.allocate(available + 1), Err(AllocError::NoMemory));
    assert_eq!(a.indicator, 0);
    assert_eq!(a.allocate(available), Ok(a.left_pos));
    assert_eq!(a.available_bytes(), 0);
}

#[test]
fn grows_until_heap_end_then_serves() {
    let mut a = LabByteAllocator::new();
    a.init(START, 0x10000);
    assert_eq!(a.allocate(64), Err(AllocError::NoMemory));
    assert_eq!(a.add_memory(START, FULL_SIZE - 0x10000), Ok(()));
    assert!(a.end < HEAP_END);
    assert_eq!(a.allocate(64), Err(AllocError::NoMemory));
    assert_eq!(a.add_memory(START, FULL_SIZE), Ok(()));
    assert_eq!(a.end, HEAP_END);
    assert_eq!(a.right_pos, HEAP_END);
    // First call, indicator 0: from the right bump cursor.
    assert_eq!(a.allocate(64), Ok(HEAP_END - 64));
    assert_eq!(a.indicator, 1);
    // Second call, indicator 1: a head turn, the lowest free head block.
    assert_eq!(a.allocate(64), Ok(START));
    assert_eq!(a.indicator, 3);
    // Third call, indicator 3 (odd): from the left bump cursor.
    assert_eq!(a.allocate(64), Ok(START + HEAD_RESERVED));
    assert_eq!(a.left_pos, START + HEAD_RESERVED + 64);
    assert_eq!(a.indicator, 4);
    // Fourth call, indicator 4 (even): from the right bump cursor again.
    assert_eq!(a.allocate(64), Ok(HEAP_END - 128));
    assert_eq!(a.indicator, 5);
}

#[test]
fn head_schedule_serves_all_four_blocks() {
    let mut a = full_region();
    assert_eq!(a.allocate(16), Ok(HEAP_END - 16)); // indicator 0: right
    assert_eq!(a.allocate(16), Ok(START)); // indicator 1: head slot 0
    assert_eq!(a.indicator, 3);
    assert_eq!(a.allocate(16), Ok(START + HEAD_RESERVED)); // 3: left
    assert_eq!(a.allocate(16), Ok(HEAP_END - 32)); // 4: right
    assert_eq!(a.allocate(16), Ok(START + HEAD_RESERVED + 16)); // 5: left
    assert_eq!(a.allocate(16), Ok(HEAP_END - 48)); // 6: right
    assert_eq!(a.allocate(16), Ok(START + HEAD_BLOCK_SIZE)); // 7: head slot 1
    assert_eq!(a.indicator, 9);
    for _ in 0..4 {
        a.allocate(16).unwrap(); // indicators 9..=12: bump turns
    }
    assert_eq!(a.indicator, 13);
    assert_eq!(a.allocate(16), Ok(START + 2 * HEAD_BLOCK_SIZE)); // 13: head slot 2
    assert_eq!(a.indicator, 15);
    for _ in 0..6 {
        a.allocate(16).unwrap(); // indicators 15..=20: bump turns
    }
    assert_eq!(a.indicator, 21);
    assert_eq!(a.allocate(16), Ok(START + 3 * HEAD_BLOCK_SIZE)); // 21: head slot 3
    assert_eq!(a.indicator, 23);
    assert_eq!(a.head_available, [false; 4]);
    // Seven left turns and eight right turns of 16 bytes each.
    assert_eq!(a.left_pos, START + HEAD_RESERVED + 7 * 16);
    assert_eq!(a.right_pos, HEAP_END - 8 * 16);
}

#[test]
fn freeing_a_head_address_frees_its_slot() {
    let mut a = full_region();
    a.allocate(16).unwrap(); // indicator 0: right
    assert_eq!(a.allocate(16), Ok(START)); // indicator 1: head slot 0
    assert_eq!(a.head_available, [false, true, true, true]);
    // Any address inside a slot's block frees exactly that slot.
    a.dealloc(START + HEAD_BLOCK_SIZE + 0x3ff, 16);
    assert_eq!(a.head_available, [false, true, true, true]);
    a.dealloc(START, 16);
    assert_eq!(a.head_available, [true, true, true, true]);
    // The bump cursors are untouched by head frees.
    assert_eq!(a.right_pos, HEAP_END - 16);
    assert_eq!(a.left_pos, START + HEAD_RESERVED);
}

#[test]
fn reset_needs_enough_free_slots_and_a_high_indicator() {
    let mut a = full_region();
    a.allocate(16).unwrap(); // 0: right
    a.allocate(16).unwrap(); // 1: head slot 0 -> indicator 3
    for _ in 0..4 {
        a.allocate(16).unwrap(); // 3..=6: bump turns
    }
    a.allocate(16).unwrap(); // 7: head slot 1 -> indicator 9
    for _ in 0..4 {
        a.allocate(16).unwrap(); // 9..=12: bump turns
    }
    a.allocate(16).unwrap(); // 13: head slot 2 -> indicator 15
    assert_eq!(a.head_available, [false, false, false, true]);
    // Two slots freed, three free in all, but the indicator is below the
    // reset threshold: no reset.
    a.dealloc(START, 16);
    assert_eq!(a.indicator, 15);
    a.dealloc(START + HEAD_BLOCK_SIZE, 16);
    assert_eq!(a.head_available, [true, true, false, true]);
    assert_eq!(a.indicator, 15);
    for _ in 0..6 {
        a.allocate(16).unwrap(); // 15..=20: bump turns
    }
    assert_eq!(a.indicator, 21);
    assert_eq!(a.allocate(16), Ok(START)); // 21: head slot 0 again
    assert_eq!(a.indicator, 23);
    // Only two slots free: freeing one more makes three while the indicator
    // is at least 21, so the indicator resets.
    a.dealloc(START, 16);
    assert_eq!(a.indicator, 0);
    // The next call behaves as from a fresh indicator: right bump cursor.
    let right = a.right_pos;
    assert_eq!(a.allocate(64), Ok(right - 64));
    assert_eq!(a.indicator, 1);
}

#[test]
fn reset_fires_when_more_than_three_become_free() {
    // Three slots already free and the indicator past the threshold:
    // freeing the last used slot leaves four free, at least three, so the
    // reset still fires.
    let mut a = LabByteAllocator {
        start: START,
        end: HEAP_END,
        left_pos: START + HEAD_RESERVED,
        right_pos: HEAP_END,
        head_available: [true, true, true, false],
        indicator: 23,
    };
    a.dealloc(START + 3 * HEAD_BLOCK_SIZE, 16);
    assert_eq!(a.head_available, [true; 4]);
    assert_eq!(a.indicator, 0);
}

#[test]
fn bump_dealloc_refunds_the_right_cursor() {
    let mut a = full_region();
    assert_eq!(a.allocate(64), Ok(HEAP_END - 64)); // 0: right
    a.allocate(64).unwrap(); // 1: head slot 0
    let left_addr = a.allocate(32).unwrap(); // 3: left
    assert_eq!(left_addr, START + HEAD_RESERVED);
    assert_eq!(a.right_pos, HEAP_END - 64);
    // Freeing left-bump memory donates its size to the right cursor; the
    // left cursor never moves back.
    a.dealloc(left_addr, 32);
    assert_eq!(a.right_pos, HEAP_END - 64 + 32);
    assert_eq!(a.left_pos, START + HEAD_RESERVED + 32);
    // Freeing right-bump memory also refunds the right cursor.
    a.dealloc(HEAP_END - 64, 64);
    assert_eq!(a.right_pos, HEAP_END + 32);
}

#[test]
fn available_is_the_cursor_gap() {
    let mut a = LabByteAllocator::new();
    a.init(0x10000, 0x20000);
    assert_eq!(a.available_bytes(), 0x20000 - HEAD_RESERVED);
    assert_eq!(a.right_pos - a.left_pos, a.available_bytes());
    let mut b = full_region();
    assert_eq!(b.available_bytes(), FULL_SIZE - HEAD_RESERVED);
    b.allocate(100).unwrap();
    assert_eq!(b.available_bytes(), FULL_SIZE - HEAD_RESERVED - 100);
    assert_eq!(b.right_pos - b.left_pos, b.available_bytes());
}

#[test]
fn totals_add_up_below_the_reporting_threshold() {
    let mut a = LabByteAllocator::new();
    a.init(0x10000, 0x20000);
    // Small region: the literal region size.
    assert_eq!(a.total_bytes(), 0x20000);
    assert_eq!(a.used_bytes(), HEAD_RESERVED);
    assert_eq!(a.used_bytes() + a.available_bytes(), a.total_bytes());
}

#[test]
fn total_switches_at_the_reporting_threshold() {
    let mut a = LabByteAllocator::new();
    a.init(0x10000, 0x3ff_ffff);
    assert_eq!(a.total_bytes(), 0x3ff_ffff);
    let mut b = LabByteAllocator::new();
    b.init(HEAP_END - 0x600_0000, 0x400_0000);
    assert_eq!(b.end, HEAP_END - 0x200_0000);
    assert_eq!(b.total_bytes(), 0x200_0000 / 2);
    let mut c = full_region();
    assert_eq!(c.total_bytes(), (HEAP_END - c.end) / 2);
    assert_eq!(c.total_bytes(), 0);
}
