//! The mathematical model of the magic-word state transition: the flash
//! contents after each step of the transition sequence, and the laws the
//! sequence obeys — idempotence and crash safety.

use vstd::prelude::*;

use crate::BOOT_MAGIC;
use crate::ERASED;
use crate::SWAP_MAGIC;
use crate::State;
use crate::flash::FlashDevice;
use crate::flash::spec_fill;
use crate::flash::spec_overwrite;
use crate::is_all_bytes;
use crate::partition::Partition;
use crate::state_of_block;

verus! {

/// The state partition's first write-granularity block within device
/// contents `c`.
pub open spec fn block_of(c: Seq<u8>, p: Partition, ws: nat) -> Seq<u8> {
    c.subrange(p.from as int, p.from + ws)
}

/// Whether the state partition `p` with write granularity `ws` fits inside
/// device contents `c`.
pub open spec fn state_bounds_ok(c: Seq<u8>, p: Partition, ws: nat) -> bool {
    &&& p.wf()
    &&& ws <= p.spec_len()
    &&& p.to <= c.len()
}

/// Device contents after a completed transition sequence: the partition's
/// first block holds `magic`, the rest of the partition is erased, and
/// nothing outside the partition has changed.
pub open spec fn after_transition(c: Seq<u8>, p: Partition, ws: nat, magic: u8) -> Seq<u8> {
    spec_overwrite(
        spec_fill(c, p.from as int, p.to as int, ERASED),
        p.from as int,
        Seq::new(ws, |i: int| magic),
    )
}

/// What a successful transition to `magic` leaves on the device: the
/// contents untouched when the block already holds `magic`, and the
/// completed sequence's contents otherwise.
pub open spec fn spec_set_magic(c: Seq<u8>, p: Partition, ws: nat, magic: u8) -> Seq<u8> {
    if is_all_bytes(block_of(c, p, ws), magic) {
        c
    } else {
        after_transition(c, p, ws, magic)
    }
}

/// The device contents after each flash operation of a transition to
/// `magic`, in order: the pre-transition contents; then, unless the block
/// already held `magic`, the contents after the all-zero block write, after
/// the partition erase, and after the final magic write.
pub open spec fn transition_trace(c: Seq<u8>, p: Partition, ws: nat, magic: u8) -> Seq<Seq<u8>> {
    if is_all_bytes(block_of(c, p, ws), magic) {
        seq![c]
    } else {
        let zeroed = spec_overwrite(c, p.from as int, Seq::new(ws, |i: int| 0u8));
        let wiped = spec_fill(zeroed, p.from as int, p.to as int, ERASED);
        seq![c, zeroed, wiped, after_transition(c, p, ws, magic)]
    }
}

/// The frame a transition operation preserves: the device's granularities
/// and size are untouched, and so is every byte outside the state
/// partition `p`.
pub open spec fn transition_frame<F: FlashDevice>(pre: F, post: F, p: Partition) -> bool {
    &&& post.spec_write_size() == pre.spec_write_size()
    &&& post.spec_erase_size() == pre.spec_erase_size()
    &&& post.contents().len() == pre.contents().len()
    &&& forall|i: int|
        0 <= i < pre.contents().len() && !(p.from <= i < p.to) ==> post.contents()[i]
            == pre.contents()[i]
}

/// When a transition to `magic` is a no-op: the state block lies within the
/// device and already holds `magic` everywhere.
pub open spec fn transition_noop<F: FlashDevice>(pre: F, p: Partition, ws: nat, magic: u8) -> bool {
    &&& p.from + ws <= pre.contents().len()
    &&& ws <= p.spec_len()
    &&& is_all_bytes(block_of(pre.contents(), p, ws), magic)
}

/// What a transition to `magic` that returned success established: the block
/// was within bounds, and the device now holds exactly `spec_set_magic` of
/// the pre-call contents.
pub open spec fn transition_ok<F: FlashDevice>(
    pre: F,
    post: F,
    p: Partition,
    ws: nat,
    magic: u8,
) -> bool {
    &&& ws <= p.spec_len()
    &&& p.from + ws <= pre.contents().len()
    &&& is_all_bytes(block_of(pre.contents(), p, ws), magic) || state_bounds_ok(
        pre.contents(),
        p,
        ws,
    )
    &&& post.contents() == spec_set_magic(pre.contents(), p, ws, magic)
}

/// Idempotence of a transition: after one completed transition to `magic`
/// the state block reads as all-`magic`, and a second transition to the same
/// `magic` leaves the device contents exactly as they were.
pub proof fn lemma_transition_idempotent(c: Seq<u8>, p: Partition, ws: nat, magic: u8)
    requires
        state_bounds_ok(c, p, ws),
    ensures
        is_all_bytes(block_of(spec_set_magic(c, p, ws, magic), p, ws), magic),
        spec_set_magic(spec_set_magic(c, p, ws, magic), p, ws, magic) == spec_set_magic(
            c,
            p,
            ws,
            magic,
        ),
{
    let c1 = spec_set_magic(c, p, ws, magic);
    if is_all_bytes(block_of(c, p, ws), magic) {
        assert(c1 == c);
    } else {
        assert forall|i: int| 0 <= i < ws implies block_of(c1, p, ws)[i] == magic by {
            assert(c1[p.from + i] == magic);
        }
    }
    assert(is_all_bytes(block_of(c1, p, ws), magic));
    assert(spec_set_magic(c1, p, ws, magic) == c1);
}

/// Crash safety of a transition: at every boundary between the flash
/// operations of a transition to `magic` — every point at which power can be
/// lost — the state block reads back either as the pre-transition state or
/// as the state the completed transition establishes, never as the remaining
/// third reading. The all-zero and all-erased intermediate blocks both read
/// as `Boot`.
pub proof fn lemma_transition_crash_safe(c: Seq<u8>, p: Partition, ws: nat, magic: u8, i: int)
    requires
        magic == BOOT_MAGIC || magic == SWAP_MAGIC,
        state_bounds_ok(c, p, ws),
        1 <= ws,
        0 <= i < transition_trace(c, p, ws, magic).len(),
    ensures
        transition_trace(c, p, ws, magic)[0] == c,
        transition_trace(c, p, ws, magic).last() == spec_set_magic(c, p, ws, magic),
        state_of_block(block_of(transition_trace(c, p, ws, magic)[i], p, ws)) == state_of_block(
            block_of(c, p, ws),
        ) || state_of_block(block_of(transition_trace(c, p, ws, magic)[i], p, ws))
            == state_of_block(block_of(spec_set_magic(c, p, ws, magic), p, ws)),
{
    let tr = transition_trace(c, p, ws, magic);
    if is_all_bytes(block_of(c, p, ws), magic) {
        assert(tr.last() == spec_set_magic(c, p, ws, magic));
    } else {
        let zeroed = spec_overwrite(c, p.from as int, Seq::new(ws, |j: int| 0u8));
        let wiped = spec_fill(zeroed, p.from as int, p.to as int, ERASED);
        let done = after_transition(c, p, ws, magic);
        // the all-zero block: not all SWAP_MAGIC, so it reads as Boot
        assert(block_of(zeroed, p, ws)[0] == 0u8);
        assert(state_of_block(block_of(zeroed, p, ws)) == State::Boot);
        // the erased block: not all SWAP_MAGIC either
        assert(block_of(wiped, p, ws)[0] == ERASED);
        assert(state_of_block(block_of(wiped, p, ws)) == State::Boot);
        // the completed block is all magic
        assert forall|j: int| 0 <= j < ws implies block_of(done, p, ws)[j] == magic by {
            assert(done[p.from + j] == magic);
        }
        if magic == SWAP_MAGIC {
            assert(state_of_block(block_of(done, p, ws)) == State::Swap);
            // the source block was not all SWAP_MAGIC, so the pre-state is Boot
            assert(state_of_block(block_of(c, p, ws)) == State::Boot);
        } else {
            assert(block_of(done, p, ws)[0] == BOOT_MAGIC);
            assert(state_of_block(block_of(done, p, ws)) == State::Boot);
        }
    }
}

} // verus!
