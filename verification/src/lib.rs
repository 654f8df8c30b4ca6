//! A fixed-region byte allocator for a bare-metal heap.
//!
//! One contiguous memory region backs three allocation strategies: a small
//! fixed pool of `HEAD_BLOCK_NUM` fixed-size "head" blocks at the low end of
//! the region, a bump cursor that grows upward from just above the head
//! blocks, and a bump cursor that grows downward from the high end. A
//! rotating counter (the "indicator") picks the strategy for each call
//! according to a hard-coded schedule.
//!
//! Addresses and sizes are `u64` values; the embedding runtime converts them
//! to and from its own pointer type.

use vstd::prelude::*;

mod model;
mod state;
mod laws;

pub use model::HeapModel;
pub use model::heap_inv;
pub use model::is_head_turn;
pub use model::lowest_free_slot;
pub use model::free_slot_count;
pub use model::some_head_free;
pub use model::alloc_rejected;
pub use model::alloc_addr;
pub use model::alloc_step;
pub use model::dealloc_step;
pub use model::spec_total_bytes;
pub use model::spec_available_bytes;
pub use model::spec_used_bytes;
pub use state::LabByteAllocator;
pub use state::AllocError;
pub use laws::HeapOp;
pub use laws::op_step;
pub use laws::run_ops;
pub use laws::run_allocs;
pub use laws::left_gain;
pub use laws::right_gain;
pub use laws::left_bump_total;
pub use laws::right_bump_total;
pub use laws::op_sizes_ok;
pub use laws::lemma_used_plus_available_is_total;
pub use laws::lemma_allocate_preserves_inv;
pub use laws::lemma_dealloc_preserves_inv;
pub use laws::lemma_low_region_state_unchanged;
pub use laws::lemma_low_region_rejects_every_allocation;
pub use laws::lemma_cursors_move_deterministically;
pub use laws::lemma_left_cursor_only_increases;
pub use laws::lemma_free_head_address_frees_its_slot;
pub use laws::lemma_head_turn_serves_lowest_free;
pub use laws::lemma_first_turns_bump_right_then_head;
pub use laws::lemma_reset_restarts_cycle;

verus! {

/// Absolute address that the region must reach before any allocation is
/// served: below it the heap is considered not yet fully mapped.
pub const HEAP_END: u64 = 0xffff_ffc0_8800_0000;

/// Size in bytes of one head block.
pub const HEAD_BLOCK_SIZE: u64 = 0x400;

/// Number of head blocks carved out at the low end of the region.
pub const HEAD_BLOCK_NUM: usize = 4;

/// Bytes reserved at the low end of the region for the head blocks; the
/// upward bump cursor starts just above them.
pub const HEAD_RESERVED: u64 = HEAD_BLOCK_SIZE * 4;

/// Indicator values at which an allocation is served from the head pool.
pub const HEAD_TURN_FIRST: u64 = 1;
/// Second indicator value of the head-pool schedule.
pub const HEAD_TURN_SECOND: u64 = 7;
/// Third indicator value of the head-pool schedule.
pub const HEAD_TURN_THIRD: u64 = 13;
/// Last indicator value of the head-pool schedule.
pub const HEAD_TURN_FOURTH: u64 = 21;

/// Number of head slots that must be free, right after a head block is
/// freed, for the indicator to be reset.
pub const RESET_FREE_SLOTS: u64 = 3;

/// Least indicator value at which freeing a head block may reset the
/// indicator.
pub const RESET_INDICATOR_MIN: u64 = 21;

/// Region size at and above which `total_bytes` switches from reporting the
/// literal region size to reporting `(HEAP_END - region_end) / 2`.
pub const TOTAL_REPORT_THRESHOLD: u64 = 0x400_0000;

} // verus!
