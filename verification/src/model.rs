//! Mathematical model of the allocator: a ghost state record and the
//! transition functions that every operation of the allocator follows.

use vstd::prelude::*;
use crate::HEAP_END;
use crate::HEAD_BLOCK_SIZE;
use crate::HEAD_BLOCK_NUM;
use crate::HEAD_RESERVED;
use crate::HEAD_TURN_FIRST;
use crate::HEAD_TURN_SECOND;
use crate::HEAD_TURN_THIRD;
use crate::HEAD_TURN_FOURTH;
use crate::RESET_FREE_SLOTS;
use crate::RESET_INDICATOR_MIN;
use crate::TOTAL_REPORT_THRESHOLD;

verus! {

/// Ghost snapshot of the allocator's bookkeeping state.
#[verifier::ext_equal]
pub ghost struct HeapModel {
    /// Low bound of the backing region; fixed at initialization.
    pub start: int,
    /// High bound of the backing region; grows when memory is added.
    pub end: int,
    /// Upward bump cursor; starts at `start + HEAD_RESERVED`.
    pub left: int,
    /// Downward bump cursor; starts at `end`.
    pub right: int,
    /// One flag per head block: true iff the slot is free.
    pub heads: Seq<bool>,
    /// Rotating counter that selects the strategy of each allocation.
    pub indicator: int,
}

/// Well-formedness of a snapshot: the head pool has its fixed size and the
/// cursors sit inside the region, above the reserved head space.
pub open spec fn heap_inv(m: HeapModel) -> bool {
    &&& m.heads.len() == HEAD_BLOCK_NUM
    &&& 0 <= m.start
    &&& m.start + HEAD_RESERVED <= m.left
    &&& m.left <= m.right
    &&& m.start <= m.end
}

/// The hard-coded schedule: indicator values served from the head pool.
pub open spec fn is_head_turn(i: int) -> bool {
    i == HEAD_TURN_FIRST || i == HEAD_TURN_SECOND || i == HEAD_TURN_THIRD
        || i == HEAD_TURN_FOURTH
}

/// Index of the lowest free head slot (the last slot if none is free).
pub open spec fn lowest_free_slot(heads: Seq<bool>) -> int
    recommends
        heads.len() == HEAD_BLOCK_NUM,
{
    if heads[0] {
        0
    } else if heads[1] {
        1
    } else if heads[2] {
        2
    } else {
        3
    }
}

/// Number of free head slots.
pub open spec fn free_slot_count(heads: Seq<bool>) -> int
    recommends
        heads.len() == HEAD_BLOCK_NUM,
{
    (if heads[0] { 1int } else { 0int }) + (if heads[1] { 1int } else { 0int })
        + (if heads[2] { 1int } else { 0int }) + (if heads[3] { 1int } else { 0int })
}

/// True iff at least one head slot is free.
pub open spec fn some_head_free(heads: Seq<bool>) -> bool
    recommends
        heads.len() == HEAD_BLOCK_NUM,
{
    heads[0] || heads[1] || heads[2] || heads[3]
}

/// An allocation is rejected (out of memory) while the region has not yet
/// reached `HEAP_END`, or when the request exceeds the space between the
/// two bump cursors.
pub open spec fn alloc_rejected(m: HeapModel, size: int) -> bool {
    m.end < HEAP_END || size > m.right - m.left
}

/// Address returned by an accepted allocation.
pub open spec fn alloc_addr(m: HeapModel, size: int) -> int
    recommends
        !alloc_rejected(m, size),
{
    if is_head_turn(m.indicator) {
        m.start + lowest_free_slot(m.heads) * HEAD_BLOCK_SIZE
    } else if m.indicator % 2 != 0 {
        m.left
    } else {
        m.right - size
    }
}

/// State after an allocation request: unchanged when rejected; otherwise the
/// head turn marks the lowest free slot used and advances the indicator by
/// two, an odd indicator bumps the left cursor up, and an even indicator
/// bumps the right cursor down, each advancing the indicator by one.
pub open spec fn alloc_step(m: HeapModel, size: int) -> HeapModel {
    if alloc_rejected(m, size) {
        m
    } else if is_head_turn(m.indicator) {
        HeapModel {
            heads: m.heads.update(lowest_free_slot(m.heads), false),
            indicator: m.indicator + 2,
            ..m
        }
    } else if m.indicator % 2 != 0 {
        HeapModel { left: m.left + size, indicator: m.indicator + 1, ..m }
    } else {
        HeapModel { right: m.right - size, indicator: m.indicator + 1, ..m }
    }
}

/// State after a deallocation. An address inside the reserved head space
/// frees the slot it falls in, and resets the indicator to zero when at
/// least `RESET_FREE_SLOTS` slots are then free and the indicator has
/// reached `RESET_INDICATOR_MIN`. Any other address refunds its size to the
/// right cursor, whichever side it was allocated from.
pub open spec fn dealloc_step(m: HeapModel, pos: int, size: int) -> HeapModel {
    if pos < m.start + HEAD_RESERVED {
        let heads = m.heads.update((pos - m.start) / (HEAD_BLOCK_SIZE as int), true);
        if free_slot_count(heads) >= RESET_FREE_SLOTS && m.indicator >= RESET_INDICATOR_MIN {
            HeapModel { heads, indicator: 0, ..m }
        } else {
            HeapModel { heads, ..m }
        }
    } else {
        HeapModel { right: m.right + size, ..m }
    }
}

/// Total bytes reported to the caller: the literal region size below
/// `TOTAL_REPORT_THRESHOLD`, and `(HEAP_END - end) / 2` at or above it.
pub open spec fn spec_total_bytes(m: HeapModel) -> int {
    if m.end - m.start >= TOTAL_REPORT_THRESHOLD {
        (HEAP_END - m.end) / 2
    } else {
        m.end - m.start
    }
}

/// Bytes still available to the bump cursors.
pub open spec fn spec_available_bytes(m: HeapModel) -> int {
    m.right - m.left
}

/// Bytes reported as used: whatever of the reported total is not available.
pub open spec fn spec_used_bytes(m: HeapModel) -> int {
    spec_total_bytes(m) - spec_available_bytes(m)
}

} // verus!
