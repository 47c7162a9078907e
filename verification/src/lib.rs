//! Application-side interface to an A/B-swap bootloader: crash-safe boot-state
//! transitions, firmware image staging, and signed-image verification, all
//! over a caller-supplied flash device.
//!
//! The persisted boot intent is a single magic byte replicated across the
//! first write-granularity block of a dedicated state partition; a staged
//! firmware image lives in a separate dfu partition. Every operation survives
//! power loss at any flash-operation boundary: the state block is only ever
//! all-`BOOT_MAGIC`, all-`SWAP_MAGIC`, or a recognizable in-progress value.

use vstd::prelude::*;

pub mod flash;
pub mod partition;
pub mod sig;
pub mod transition;
pub mod updater;
pub mod writer;

verus! {

/// Magic byte confirming the running image: replicated across the first
/// write-granularity block of the state partition, it cancels any pending
/// rollback.
pub const BOOT_MAGIC: u8 = 0xD0;

/// Magic byte requesting a swap on next boot, replicated the same way.
pub const SWAP_MAGIC: u8 = 0xF0;

/// The value every byte of a freshly erased flash range holds.
pub const ERASED: u8 = 0xFF;

/// The boot intent the bootloader acts on, as derived from the state
/// partition's first write-granularity block.
#[derive(Clone, Copy, Debug, PartialEq, Eq, Structural)]
pub enum State {
    /// Normal operation: keep the currently running image.
    Boot,
    /// A swap has been requested or has just occurred: the caller must verify
    /// the new image before confirming it.
    Swap,
}

/// Holds of a byte sequence in which every byte equals `b`.
pub open spec fn is_all_bytes(s: Seq<u8>, b: u8) -> bool {
    forall|i: int| 0 <= i < s.len() ==> s[i] == b
}

/// The boot state a block of the state partition denotes: `Swap` exactly when
/// every byte is `SWAP_MAGIC`, and `Boot` for anything else, an erased or
/// half-written block included.
pub open spec fn state_of_block(block: Seq<u8>) -> State {
    if is_all_bytes(block, SWAP_MAGIC) {
        State::Swap
    } else {
        State::Boot
    }
}

/// Whether every byte of `buf` equals `b`.
pub fn bytes_match(buf: &[u8], b: u8) -> (r: bool)
    ensures
        r == is_all_bytes(buf@, b),
{
    let mut i: usize = 0;
    while i < buf.len()
        invariant
            i <= buf@.len(),
            forall|j: int| 0 <= j < i ==> buf@[j] == b,
        decreases buf@.len() - i,
    {
        if buf[i] != b {
            return false;
        }
        i += 1;
    }
    true
}

/// The boot state `block` denotes, as an executable decision.
pub fn state_of_bytes(block: &[u8]) -> (r: State)
    ensures
        r == state_of_block(block@),
{
    if bytes_match(block, SWAP_MAGIC) {
        State::Swap
    } else {
        State::Boot
    }
}

/// Overwrites every byte of `buf` with `b`, keeping its length.
pub fn fill_bytes(buf: &mut Vec<u8>, b: u8)
    ensures
        final(buf)@ == Seq::new(old(buf)@.len(), |i: int| b),
{
    let n = buf.len();
    let mut i: usize = 0;
    while i < n
        invariant
            i <= n,
            buf@.len() == n,
            forall|j: int| 0 <= j < i ==> buf@[j] == b,
        decreases n - i,
    {
        buf.set(i, b);
        i += 1;
    }
    proof {
        assert(buf@ =~= Seq::new(old(buf)@.len(), |i: int| b));
    }
}

} // verus!
