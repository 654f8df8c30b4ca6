//! The executable allocator: one struct owning all bookkeeping, whose every
//! operation is proved to follow the transition functions of the model.

use vstd::prelude::*;
use crate::HEAP_END;
use crate::HEAD_BLOCK_SIZE;
use crate::HEAD_BLOCK_NUM;
use crate::HEAD_RESERVED;
use crate::HEAD_TURN_FIRST;
use crate::HEAD_TURN_SECOND;
use crate::HEAD_TURN_THIRD;
use crate::HEAD_TURN_FOURTH;
use crate::RESET_FREE_SLOTS;
use crate::RESET_INDICATOR_MIN;
use crate::TOTAL_REPORT_THRESHOLD;
use crate::model::HeapModel;
use crate::model::heap_inv;
use crate::model::is_head_turn;
use crate::model::some_head_free;
use crate::model::alloc_rejected;
use crate::model::alloc_addr;
use crate::model::alloc_step;
use crate::model::dealloc_step;
use crate::model::spec_total_bytes;
use crate::model::spec_available_bytes;
use crate::model::spec_used_bytes;

verus! {

/// The one recoverable failure: an allocation that cannot be served.
#[derive(Clone, Copy, Debug, PartialEq, Eq, Structural)]
pub enum AllocError {
    /// The region has not reached `HEAP_END` yet, or the request exceeds the
    /// space left between the bump cursors.
    NoMemory,
}

/// Bookkeeping state of the fixed-region byte allocator.
pub struct LabByteAllocator {
    /// Low bound of the backing region; fixed at initialization.
    pub start: u64,
    /// High bound of the backing region; grows when memory is added.
    pub end: u64,
    /// Upward bump cursor; starts at `start + HEAD_RESERVED`.
    pub left_pos: u64,
    /// Downward bump cursor; starts at `end`.
    pub right_pos: u64,
    /// One flag per head block: true iff the slot is free.
    pub head_available: [bool; HEAD_BLOCK_NUM],
    /// Rotating counter that selects the strategy of each allocation.
    pub indicator: u64,
}

impl View for LabByteAllocator {
    type V = HeapModel;

    open spec fn view(&self) -> HeapModel {
        HeapModel {
            start: self.start as int,
            end: self.end as int,
            left: self.left_pos as int,
            right: self.right_pos as int,
            heads: self.head_available@,
            indicator: self.indicator as int,
        }
    }
}

impl LabByteAllocator {
    /// The allocator is well formed once initialized: its model satisfies
    /// the state invariant.
    pub open spec fn wf(&self) -> bool {
        heap_inv(self@)
    }

    /// A fresh, not yet initialized allocator: zeroed bounds and cursors,
    /// every head slot free, indicator at zero.
    pub fn new() -> (r: LabByteAllocator)
        ensures
            r.start == 0,
            r.end == 0,
            r.left_pos == 0,
            r.right_pos == 0,
            r.indicator == 0,
            r@.heads =~= Seq::new(HEAD_BLOCK_NUM as nat, |i: int| true),
    {
        LabByteAllocator {
            start: 0,
            end: 0,
            left_pos: 0,
            right_pos: 0,
            head_available: [true; HEAD_BLOCK_NUM],
            indicator: 0,
        }
    }

    /// Adopt the backing region `[start, start + size)`: the upward cursor
    /// starts just above the reserved head space, the downward cursor at the
    /// region's end, every head slot is free and the indicator is zero. Must
    /// be called once before any other operation.
    pub fn init(&mut self, start: u64, size: u64)
        requires
            HEAD_RESERVED <= size,
            start + size <= u64::MAX,
        ensures
            final(self).start == start,
            final(self).end == start + size,
            final(self).left_pos == start + HEAD_RESERVED,
            final(self).right_pos == start + size,
            final(self).indicator == 0,
            final(self)@.heads =~= Seq::new(HEAD_BLOCK_NUM as nat, |i: int| true),
            final(self).wf(),
    {
        self.start = start;
        self.end = start + size;
        self.left_pos = start + HEAD_RESERVED;
        self.right_pos = self.end;
        self.head_available = [true; HEAD_BLOCK_NUM];
        self.indicator = 0;
    }

    /// Adopt `[start, start + size)` as the new top of the region: the
    /// region's end and the downward cursor both move to `start + size`.
    /// The new range is trusted to sit above the tracked region; it always
    /// succeeds.
    pub fn add_memory(&mut self, start: u64, size: u64) -> (r: Result<(), AllocError>)
        requires
            old(self).wf(),
            start + size <= u64::MAX,
            old(self).left_pos <= start + size,
        ensures
            r == Ok::<(), AllocError>(()),
            final(self).end == start + size,
            final(self).right_pos == start + size,
            final(self).start == old(self).start,
            final(self).left_pos == old(self).left_pos,
            final(self).head_available == old(self).head_available,
            final(self).indicator == old(self).indicator,
            final(self).wf(),
    {
        self.end = start + size;
        self.right_pos = self.end;
        Ok(())
    }

    /// Serve an allocation of `size` bytes, choosing the strategy by the
    /// indicator: exactly as `alloc_step` and `alloc_addr` of the model say.
    /// A head turn must find a free slot; that is the caller's contract.
    pub fn allocate(&mut self, size: u64) -> (r: Result<u64, AllocError>)
        requires
            old(self).wf(),
            !alloc_rejected(old(self)@, size as int) && is_head_turn(old(self)@.indicator)
                ==> some_head_free(old(self)@.heads),
            !alloc_rejected(old(self)@, size as int) && is_head_turn(old(self)@.indicator)
                ==> old(self).indicator + 2 <= u64::MAX,
            !alloc_rejected(old(self)@, size as int) && !is_head_turn(old(self)@.indicator)
                ==> old(self).indicator + 1 <= u64::MAX,
        ensures
            final(self)@ == alloc_step(old(self)@, size as int),
            final(self).wf(),
            r is Err <==> alloc_rejected(old(self)@, size as int),
            r is Err ==> r == Err::<u64, AllocError>(AllocError::NoMemory)
                && *final(self) == *old(self),
            r is Ok ==> r == Ok::<u64, AllocError>(
                alloc_addr(old(self)@, size as int) as u64,
            ),
    {
        if self.end < HEAP_END || size > self.available_bytes() {
            return Err(AllocError::NoMemory);
        }
        if self.indicator == HEAD_TURN_FIRST || self.indicator == HEAD_TURN_SECOND
            || self.indicator == HEAD_TURN_THIRD || self.indicator == HEAD_TURN_FOURTH {
            let index: usize = if self.head_available[0] {
                0
            } else if self.head_available[1] {
                1
            } else if self.head_available[2] {
                2
            } else {
                3
            };
            self.head_available[index] = false;
            let ptr: u64 = self.start + (index as u64) * HEAD_BLOCK_SIZE;
            self.indicator = self.indicator + 2;
            return Ok(ptr);
        }
        if self.indicator % 2 != 0 {
            let ptr: u64 = self.left_pos;
            self.left_pos = self.left_pos + size;
            self.indicator = self.indicator + 1;
            Ok(ptr)
        } else {
            self.right_pos = self.right_pos - size;
            self.indicator = self.indicator + 1;
            Ok(self.right_pos)
        }
    }

    /// Return `size` bytes at address `pos`: exactly as `dealloc_step` of
    /// the model says. An address inside the reserved head space frees its
    /// slot (and may reset the indicator); any other address refunds its
    /// size to the right cursor. The address is trusted to come from an
    /// earlier allocation with the same size.
    pub fn dealloc(&mut self, pos: u64, size: u64)
        requires
            old(self).wf(),
            pos < old(self).start + HEAD_RESERVED ==> pos >= old(self).start,
            pos >= old(self).start + HEAD_RESERVED
                ==> old(self).right_pos + size <= u64::MAX,
        ensures
            final(self)@ == dealloc_step(old(self)@, pos as int, size as int),
            final(self).wf(),
    {
        if pos < self.start + HEAD_RESERVED {
            let diff: u64 = pos - self.start;
            let index: usize = (diff / HEAD_BLOCK_SIZE) as usize;
            assert((diff as int) / (HEAD_BLOCK_SIZE as int) < 4) by (nonlinear_arith)
                requires
                    diff < 0x1000u64,
                    HEAD_BLOCK_SIZE == 0x400u64,
            ;
            self.head_available[index] = true;
            let free_count: u64 = (if self.head_available[0] { 1u64 } else { 0u64 })
                + (if self.head_available[1] { 1 } else { 0 })
                + (if self.head_available[2] { 1 } else { 0 })
                + (if self.head_available[3] { 1 } else { 0 });
            if free_count >= RESET_FREE_SLOTS && self.indicator >= RESET_INDICATOR_MIN {
                self.indicator = 0;
            }
        } else {
            self.right_pos = self.right_pos + size;
        }
    }

    /// Report the region's size: the literal size below the reporting
    /// threshold, and `(HEAP_END - end) / 2` at or above it.
    pub fn total_bytes(&self) -> (r: u64)
        requires
            self.wf(),
            self.end - self.start >= TOTAL_REPORT_THRESHOLD ==> self.end <= HEAP_END,
        ensures
            r == spec_total_bytes(self@),
    {
        if self.end - self.start >= TOTAL_REPORT_THRESHOLD {
            (HEAP_END - self.end) / 2
        } else {
            self.end - self.start
        }
    }

    /// Bytes reported as used: the reported total minus the available bytes.
    pub fn used_bytes(&self) -> (r: u64)
        requires
            self.wf(),
            self.end - self.start >= TOTAL_REPORT_THRESHOLD ==> self.end <= HEAP_END,
            spec_available_bytes(self@) <= spec_total_bytes(self@),
        ensures
            r == spec_used_bytes(self@),
    {
        self.total_bytes() - self.available_bytes()
    }

    /// Bytes still available to the bump cursors.
    pub fn available_bytes(&self) -> (r: u64)
        requires
            self.wf(),
        ensures
            r == spec_available_bytes(self@),
    {
        self.right_pos - self.left_pos
    }
}

} // verus!
