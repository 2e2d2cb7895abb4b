//! Memory layout of the payload: the hand-off block and the stack sit at the top of the
//! memory below 4 GiB, and the heap lies right under them.
use vstd::prelude::*;

verus! {

/// Start of the payload heap: below the top of memory under 4 GiB, room is left for the
/// hand-off blocks and the stack, and the heap of `heap_size` bytes ends there.
pub open spec fn heap_start(
    memory_size_below_4gb: int,
    hob_size: int,
    stack_size: int,
    heap_size: int,
) -> int {
    memory_size_below_4gb - (hob_size + stack_size) - heap_size
}

/// Computes where the payload heap starts.
pub fn payload_heap_start(
    memory_size_below_4gb: usize,
    hob_size: usize,
    stack_size: usize,
    heap_size: usize,
) -> (start: usize)
    requires
        hob_size + stack_size <= usize::MAX,
        hob_size + stack_size + heap_size <= memory_size_below_4gb,
    ensures
        start == heap_start(
            memory_size_below_4gb as int,
            hob_size as int,
            stack_size as int,
            heap_size as int,
        ),
        start + heap_size + hob_size + stack_size == memory_size_below_4gb,
{
    memory_size_below_4gb - (hob_size + stack_size) - heap_size
}

/// The heap, the hand-off blocks and the stack fill the top of memory without a gap or an
/// overlap, and the heap lies inside memory.
pub proof fn lemma_heap_below_hob_and_stack(
    memory_size_below_4gb: usize,
    hob_size: usize,
    stack_size: usize,
    heap_size: usize,
)
    requires
        hob_size + stack_size + heap_size <= memory_size_below_4gb,
    ensures
        0 <= heap_start(
            memory_size_below_4gb as int,
            hob_size as int,
            stack_size as int,
            heap_size as int,
        ),
        heap_start(memory_size_below_4gb as int, hob_size as int, stack_size as int, heap_size as int)
            + heap_size + hob_size + stack_size == memory_size_below_4gb,
{
}

} // verus!
