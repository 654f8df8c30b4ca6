//! Laws of the allocator, proved over the model's transition functions.

use vstd::prelude::*;
use crate::HEAP_END;
use crate::HEAD_BLOCK_SIZE;
use crate::HEAD_BLOCK_NUM;
use crate::HEAD_RESERVED;
use crate::HEAD_TURN_FIRST;
use crate::RESET_FREE_SLOTS;
use crate::RESET_INDICATOR_MIN;
use crate::model::HeapModel;
use crate::model::heap_inv;
use crate::model::is_head_turn;
use crate::model::lowest_free_slot;
use crate::model::free_slot_count;
use crate::model::alloc_rejected;
use crate::model::alloc_addr;
use crate::model::alloc_step;
use crate::model::dealloc_step;
use crate::model::spec_total_bytes;
use crate::model::spec_available_bytes;
use crate::model::spec_used_bytes;

verus! {

/// The three size reports always agree: used plus available equals total.
pub proof fn lemma_used_plus_available_is_total(m: HeapModel)
    ensures
        spec_used_bytes(m) + spec_available_bytes(m) == spec_total_bytes(m),
{
}

/// An allocation of a nonnegative size keeps the state well formed.
pub proof fn lemma_allocate_preserves_inv(m: HeapModel, size: int)
    requires
        heap_inv(m),
        0 <= size,
    ensures
        heap_inv(alloc_step(m, size)),
{
}

/// A deallocation of a nonnegative size at an address no lower than the
/// region's start keeps the state well formed.
pub proof fn lemma_dealloc_preserves_inv(m: HeapModel, pos: int, size: int)
    requires
        heap_inv(m),
        0 <= size,
        pos < m.start + HEAD_RESERVED ==> pos >= m.start,
    ensures
        heap_inv(dealloc_step(m, pos, size)),
{
    if pos < m.start + HEAD_RESERVED {
        assert(0 <= (pos - m.start) / (HEAD_BLOCK_SIZE as int) < 4) by (nonlinear_arith)
            requires
                0 <= pos - m.start < 0x1000,
                HEAD_BLOCK_SIZE == 0x400u64,
        ;
    }
}

/// State after a sequence of allocation requests, each one applied to the
/// state the one before it left.
pub open spec fn run_allocs(m: HeapModel, sizes: Seq<int>) -> HeapModel
    decreases sizes.len(),
{
    if sizes.len() == 0 {
        m
    } else {
        run_allocs(alloc_step(m, sizes[0]), sizes.skip(1))
    }
}

/// While the region has not reached `HEAP_END`, no sequence of allocation
/// requests changes the state.
pub proof fn lemma_low_region_state_unchanged(m: HeapModel, sizes: Seq<int>)
    requires
        m.end < HEAP_END,
    ensures
        run_allocs(m, sizes) == m,
    decreases sizes.len(),
{
    if sizes.len() > 0 {
        assert(alloc_rejected(m, sizes[0]));
        lemma_low_region_state_unchanged(m, sizes.skip(1));
    }
}

/// While the region has not reached `HEAP_END`, every allocation request of
/// any sequence is rejected as out of memory.
pub proof fn lemma_low_region_rejects_every_allocation(m: HeapModel, sizes: Seq<int>)
    requires
        m.end < HEAP_END,
    ensures
        forall|i: int|
            0 <= i < sizes.len() ==> alloc_rejected(
                run_allocs(m, sizes.take(i)),
                sizes[i],
            ),
{
    assert forall|i: int|
        0 <= i < sizes.len() implies alloc_rejected(
        run_allocs(m, sizes.take(i)),
        sizes[i],
    ) by {
        lemma_low_region_state_unchanged(m, sizes.take(i));
    }
}

/// One recorded call into the allocator: an allocation request or a
/// deallocation.
pub ghost enum HeapOp {
    /// An allocation request of `size` bytes.
    Allocate { size: int },
    /// A deallocation of `size` bytes at address `pos`.
    Deallocate { pos: int, size: int },
}

/// The state one operation leaves.
pub open spec fn op_step(m: HeapModel, op: HeapOp) -> HeapModel {
    match op {
        HeapOp::Allocate { size } => alloc_step(m, size),
        HeapOp::Deallocate { pos, size } => dealloc_step(m, pos, size),
    }
}

/// State after a sequence of operations.
pub open spec fn run_ops(m: HeapModel, ops: Seq<HeapOp>) -> HeapModel
    decreases ops.len(),
{
    if ops.len() == 0 {
        m
    } else {
        run_ops(op_step(m, ops[0]), ops.skip(1))
    }
}

/// How far one operation moves the left cursor: the requested size for an
/// accepted left-bump allocation, nothing otherwise.
pub open spec fn left_gain(m: HeapModel, op: HeapOp) -> int {
    match op {
        HeapOp::Allocate { size } => if !alloc_rejected(m, size) && !is_head_turn(m.indicator)
            && m.indicator % 2 != 0 {
            size
        } else {
            0
        },
        HeapOp::Deallocate { .. } => 0,
    }
}

/// How far one operation moves the right cursor: down by the size of an
/// accepted right-bump allocation, up by the size of every bump
/// deallocation, nothing otherwise.
pub open spec fn right_gain(m: HeapModel, op: HeapOp) -> int {
    match op {
        HeapOp::Allocate { size } => if !alloc_rejected(m, size) && !is_head_turn(m.indicator)
            && m.indicator % 2 == 0 {
            -size
        } else {
            0
        },
        HeapOp::Deallocate { pos, size } => if pos >= m.start + HEAD_RESERVED {
            size
        } else {
            0
        },
    }
}

/// Sum of the left-cursor movements over a sequence of operations.
pub open spec fn left_bump_total(m: HeapModel, ops: Seq<HeapOp>) -> int
    decreases ops.len(),
{
    if ops.len() == 0 {
        0
    } else {
        left_gain(m, ops[0]) + left_bump_total(op_step(m, ops[0]), ops.skip(1))
    }
}

/// Sum of the right-cursor movements over a sequence of operations.
pub open spec fn right_bump_total(m: HeapModel, ops: Seq<HeapOp>) -> int
    decreases ops.len(),
{
    if ops.len() == 0 {
        0
    } else {
        right_gain(m, ops[0]) + right_bump_total(op_step(m, ops[0]), ops.skip(1))
    }
}

/// The cursors move deterministically: after any sequence of operations the
/// left cursor has moved by exactly the sum of the accepted left-bump
/// allocation sizes, and the right cursor by exactly the sum of the bump
/// deallocation sizes minus the accepted right-bump allocation sizes. The
/// region's bounds never move.
pub proof fn lemma_cursors_move_deterministically(m: HeapModel, ops: Seq<HeapOp>)
    ensures
        run_ops(m, ops).left == m.left + left_bump_total(m, ops),
        run_ops(m, ops).right == m.right + right_bump_total(m, ops),
        run_ops(m, ops).start == m.start,
        run_ops(m, ops).end == m.end,
    decreases ops.len(),
{
    if ops.len() > 0 {
        lemma_cursors_move_deterministically(op_step(m, ops[0]), ops.skip(1));
    }
}

/// An operation whose recorded sizes make sense: none is negative.
pub open spec fn op_sizes_ok(op: HeapOp) -> bool {
    match op {
        HeapOp::Allocate { size } => 0 <= size,
        HeapOp::Deallocate { pos, size } => 0 <= size,
    }
}

/// The left cursor only ever moves up: no sequence of operations with
/// nonnegative sizes brings it below where it started.
pub proof fn lemma_left_cursor_only_increases(m: HeapModel, ops: Seq<HeapOp>)
    requires
        forall|i: int| 0 <= i < ops.len() ==> op_sizes_ok(#[trigger] ops[i]),
    ensures
        run_ops(m, ops).left >= m.left,
    decreases ops.len(),
{
    if ops.len() > 0 {
        assert(op_sizes_ok(ops[0]));
        assert forall|i: int| 0 <= i < ops.skip(1).len() implies op_sizes_ok(
            #[trigger] ops.skip(1)[i],
        ) by {
            assert(ops.skip(1)[i] == ops[i + 1]);
        }
        lemma_left_cursor_only_increases(op_step(m, ops[0]), ops.skip(1));
    }
}

/// Freeing the address of head block `k` frees exactly slot `k`.
pub proof fn lemma_free_head_address_frees_its_slot(m: HeapModel, k: int, size: int)
    requires
        heap_inv(m),
        0 <= k < HEAD_BLOCK_NUM,
    ensures
        dealloc_step(m, m.start + k * HEAD_BLOCK_SIZE, size).heads == m.heads.update(k, true),
{
    assert(0 <= k * HEAD_BLOCK_SIZE < HEAD_RESERVED && (k * HEAD_BLOCK_SIZE)
        / (HEAD_BLOCK_SIZE as int) == k) by (nonlinear_arith)
        requires
            0 <= k < 4,
            HEAD_BLOCK_SIZE == 0x400u64,
            HEAD_RESERVED == 0x1000u64,
    ;
}

/// A head-turn allocation returns the lowest-indexed free head block,
/// advances the indicator by two, and leaves both cursors where they were.
pub proof fn lemma_head_turn_serves_lowest_free(m: HeapModel, size: int)
    requires
        heap_inv(m),
        !alloc_rejected(m, size),
        is_head_turn(m.indicator),
    ensures
        alloc_addr(m, size) == m.start + lowest_free_slot(m.heads) * HEAD_BLOCK_SIZE,
        alloc_step(m, size).indicator == m.indicator + 2,
        alloc_step(m, size).left == m.left,
        alloc_step(m, size).right == m.right,
        alloc_step(m, size).heads == m.heads.update(lowest_free_slot(m.heads), false),
{
}

/// From a fresh indicator the first accepted allocation comes from the right
/// bump cursor, and the next indicator value is the first head turn, so the
/// second accepted allocation returns the lowest-indexed free head block.
pub proof fn lemma_first_turns_bump_right_then_head(m: HeapModel, size0: int, size1: int)
    requires
        heap_inv(m),
        m.indicator == 0,
        !alloc_rejected(m, size0),
        !alloc_rejected(alloc_step(m, size0), size1),
    ensures
        alloc_addr(m, size0) == m.right - size0,
        alloc_step(m, size0).indicator == HEAD_TURN_FIRST,
        alloc_addr(alloc_step(m, size0), size1) == m.start + lowest_free_slot(m.heads)
            * HEAD_BLOCK_SIZE,
        alloc_step(alloc_step(m, size0), size1).indicator == 3,
{
}

/// Once freeing a head block leaves at least `RESET_FREE_SLOTS` slots free
/// while the indicator has reached `RESET_INDICATOR_MIN`, the indicator is
/// reset, and the next accepted allocation behaves as from a fresh
/// indicator: it comes from the right bump cursor.
pub proof fn lemma_reset_restarts_cycle(m: HeapModel, pos: int, size: int, size2: int)
    requires
        heap_inv(m),
        m.start <= pos < m.start + HEAD_RESERVED,
        m.indicator >= RESET_INDICATOR_MIN,
        free_slot_count(
            m.heads.update((pos - m.start) / (HEAD_BLOCK_SIZE as int), true),
        ) >= RESET_FREE_SLOTS,
        !alloc_rejected(dealloc_step(m, pos, size), size2),
    ensures
        dealloc_step(m, pos, size).indicator == 0,
        alloc_addr(dealloc_step(m, pos, size), size2) == m.right - size2,
        alloc_step(dealloc_step(m, pos, size), size2).right == m.right - size2,
        alloc_step(dealloc_step(m, pos, size), size2).indicator == 1,
{
}

} // verus!
