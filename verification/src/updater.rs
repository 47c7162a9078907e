//! The core updater: state queries, crash-safe atomic state transitions,
//! image staging, and verified activation, all over two partitions of a
//! caller-supplied flash device.

use vstd::prelude::*;

use crate::BOOT_MAGIC;
use crate::SWAP_MAGIC;
use crate::State;
use crate::bytes_match;
use crate::fill_bytes;
use crate::flash::FlashDevice;
use crate::flash::FlashErrorKind;
use crate::flash::spec_fill;
use crate::flash::spec_overwrite;
use crate::is_all_bytes;
use crate::partition::Partition;
use crate::sig::digest_fed;
use crate::sig::digest_finalize;
use crate::sig::digest_new;
use crate::sig::digest_update;
use crate::sig::ed25519_accepts;
use crate::sig::ed25519_verify;
use crate::sig::sha512_of;
use crate::state_of_block;
use crate::transition::block_of;
use crate::transition::lemma_transition_idempotent;
use crate::transition::spec_set_magic;
use crate::transition::transition_frame;
use crate::transition::transition_noop;
use crate::transition::transition_ok;
use crate::transition::transition_trace;
use crate::writer::FirmwareWriter;

verus! {

/// Errors the updater surfaces to its caller.
#[derive(Clone, Copy, Debug, PartialEq, Eq, Structural)]
pub enum FirmwareUpdaterError {
    /// A flash operation failed, wrapping the device's error kind.
    Flash(FlashErrorKind),
    /// The staged image failed signature verification: a malformed public
    /// key or signature, or a signature that does not match the image's
    /// digest. The pending state transition was not performed.
    Signature,
}

/// Application-side handle on the bootloader handshake. It owns the two
/// partition descriptors and nothing else: every operation borrows the flash
/// device for its own duration, so the caller stays free to use the device
/// elsewhere between calls.
pub struct FirmwareUpdater {
    state: Partition,
    dfu: Partition,
}

impl FirmwareUpdater {
    /// The state partition descriptor.
    pub closed spec fn spec_state(&self) -> Partition {
        self.state
    }

    /// The dfu partition descriptor.
    pub closed spec fn spec_dfu(&self) -> Partition {
        self.dfu
    }

    /// Both partition descriptors are well-formed.
    pub open spec fn wf(&self) -> bool {
        self.spec_state().wf() && self.spec_dfu().wf()
    }

    /// Creates a firmware updater instance with partition ranges for the
    /// update and state partitions.
    pub fn new(dfu: Partition, state: Partition) -> (r: FirmwareUpdater)
        requires
            dfu.wf(),
            state.wf(),
        ensures
            r.spec_dfu() == dfu,
            r.spec_state() == state,
            r.wf(),
    {
        FirmwareUpdater { state, dfu }
    }

    /// Returns the length of the DFU area.
    pub fn firmware_len(&self) -> (r: usize)
        requires
            self.wf(),
        ensures
            r == self.spec_dfu().spec_len(),
    {
        self.dfu.len()
    }

    /// The dfu partition descriptor, for callers that drive flash I/O
    /// themselves.
    pub fn dfu_partition(&self) -> (r: Partition)
        ensures
            r == self.spec_dfu(),
    {
        self.dfu
    }

    /// The state partition descriptor.
    pub fn state_partition(&self) -> (r: Partition)
        ensures
            r == self.spec_state(),
    {
        self.state
    }

    /// Obtains the current state by reading the state partition's first
    /// block into `aligned`: `Swap` exactly when every byte read equals
    /// `SWAP_MAGIC`, `Boot` otherwise. Nothing is written.
    pub fn get_state_blocking<F: FlashDevice>(
        &mut self,
        state_flash: &mut F,
        aligned: &mut Vec<u8>,
    ) -> (r: Result<State, FirmwareUpdaterError>)
        requires
            old(self).wf(),
            old(aligned)@.len() == old(state_flash).spec_write_size(),
        ensures
            *final(self) == *old(self),
            *final(state_flash) == *old(state_flash),
            final(aligned)@.len() == old(aligned)@.len(),
            r matches Ok(s) ==> old(aligned)@.len() <= old(self).spec_state().spec_len()
                && old(self).spec_state().from + old(aligned)@.len() <= old(state_flash).contents().len()
                && s == state_of_block(
                block_of(
                    old(state_flash).contents(),
                    old(self).spec_state(),
                    old(aligned)@.len(),
                ),
            ),
            r matches Err(e) ==> e is Flash,
    {
        match self.state.read_blocking(state_flash, 0, aligned) {
            Ok(()) => {},
            Err(e) => {
                return Err(FirmwareUpdaterError::Flash(e));
            },
        }
        let s = crate::state_of_bytes(aligned.as_slice());
        proof {
            assert(aligned@ =~= block_of(
                old(state_flash).contents(),
                old(self).spec_state(),
                old(aligned)@.len(),
            ));
        }
        Ok(s)
    }

    /// Moves the persisted state to `magic` with the crash-safe sequence:
    /// read the current block; if it already holds `magic` everywhere, do
    /// nothing at all; otherwise write an all-zero block, erase the whole
    /// partition, and write the all-`magic` block. The assertions in the body
    /// pin each flash-operation boundary to the matching element of
    /// `transition_trace`, so `lemma_transition_crash_safe` speaks of exactly
    /// the intermediate device states this sequence goes through: power loss
    /// between any two operations leaves the block readable as either the
    /// old state or an in-progress value, never as the wrong magic.
    fn set_magic_blocking<F: FlashDevice>(
        &mut self,
        aligned: &mut Vec<u8>,
        magic: u8,
        state_flash: &mut F,
    ) -> (r: Result<(), FirmwareUpdaterError>)
        requires
            old(self).wf(),
            old(aligned)@.len() == old(state_flash).spec_write_size(),
        ensures
            *final(self) == *old(self),
            final(aligned)@.len() == old(aligned)@.len(),
            transition_frame(*old(state_flash), *final(state_flash), old(self).spec_state()),
            transition_noop(
                *old(state_flash),
                old(self).spec_state(),
                old(aligned)@.len(),
                magic,
            ) ==> *final(state_flash) == *old(state_flash),
            r is Ok ==> transition_ok(
                *old(state_flash),
                *final(state_flash),
                old(self).spec_state(),
                old(aligned)@.len(),
                magic,
            ),
            r matches Err(e) ==> e is Flash,
    {
        let ghost c0 = state_flash.contents();
        let ghost p = self.state;
        let ghost ws = old(aligned)@.len();
        match self.state.read_blocking(state_flash, 0, aligned) {
            Ok(()) => {},
            Err(e) => {
                return Err(FirmwareUpdaterError::Flash(e));
            },
        }
        proof {
            assert(aligned@ =~= block_of(c0, p, ws));
        }
        if !bytes_match(aligned.as_slice(), magic) {
            fill_bytes(aligned, 0);
            match self.state.write_blocking(state_flash, 0, aligned.as_slice()) {
                Ok(()) => {},
                Err(e) => {
                    return Err(FirmwareUpdaterError::Flash(e));
                },
            }
            proof {
                assert(state_flash.contents() =~= transition_trace(c0, p, ws, magic)[1]);
            }
            match self.state.wipe_blocking(state_flash) {
                Ok(()) => {},
                Err(e) => {
                    return Err(FirmwareUpdaterError::Flash(e));
                },
            }
            proof {
                assert(state_flash.contents() =~= transition_trace(c0, p, ws, magic)[2]);
            }
            fill_bytes(aligned, magic);
            match self.state.write_blocking(state_flash, 0, aligned.as_slice()) {
                Ok(()) => {},
                Err(e) => {
                    return Err(FirmwareUpdaterError::Flash(e));
                },
            }
            proof {
                assert(state_flash.contents() =~= transition_trace(c0, p, ws, magic)[3]);
                assert(state_flash.contents() =~= spec_set_magic(c0, p, ws, magic));
            }
        }
        Ok(())
    }

    /// Marks the staged image for a swap on next boot. On success the state
    /// block is all `SWAP_MAGIC` and reads back as `Swap`; if it already
    /// was, the device is left untouched — no write, no erase.
    pub fn mark_updated_blocking<F: FlashDevice>(
        &mut self,
        state_flash: &mut F,
        aligned: &mut Vec<u8>,
    ) -> (r: Result<(), FirmwareUpdaterError>)
        requires
            old(self).wf(),
            old(aligned)@.len() == old(state_flash).spec_write_size(),
            1 <= old(aligned)@.len(),
        ensures
            *final(self) == *old(self),
            final(aligned)@.len() == old(aligned)@.len(),
            transition_frame(*old(state_flash), *final(state_flash), old(self).spec_state()),
            transition_noop(
                *old(state_flash),
                old(self).spec_state(),
                old(aligned)@.len(),
                SWAP_MAGIC,
            ) ==> *final(state_flash) == *old(state_flash),
            r is Ok ==> transition_ok(
                *old(state_flash),
                *final(state_flash),
                old(self).spec_state(),
                old(aligned)@.len(),
                SWAP_MAGIC,
            ) && state_of_block(
                block_of(
                    final(state_flash).contents(),
                    old(self).spec_state(),
                    old(aligned)@.len(),
                ),
            ) == State::Swap,
            r matches Err(e) ==> e is Flash,
    {
        let ghost c0 = state_flash.contents();
        let ghost p = self.state;
        let ghost ws = old(aligned)@.len();
        let r = self.set_magic_blocking(aligned, SWAP_MAGIC, state_flash);
        proof {
            if r is Ok && !is_all_bytes(block_of(c0, p, ws), SWAP_MAGIC) {
                lemma_transition_idempotent(c0, p, ws, SWAP_MAGIC);
            }
        }
        r
    }

    /// Marks the running image as good, stopping any pending rollback. On
    /// success the state block is all `BOOT_MAGIC` and reads back as `Boot`;
    /// if it already was, the device is left untouched — no write, no erase.
    pub fn mark_booted_blocking<F: FlashDevice>(
        &mut self,
        state_flash: &mut F,
        aligned: &mut Vec<u8>,
    ) -> (r: Result<(), FirmwareUpdaterError>)
        requires
            old(self).wf(),
            old(aligned)@.len() == old(state_flash).spec_write_size(),
            1 <= old(aligned)@.len(),
        ensures
            *final(self) == *old(self),
            final(aligned)@.len() == old(aligned)@.len(),
            transition_frame(*old(state_flash), *final(state_flash), old(self).spec_state()),
            transition_noop(
                *old(state_flash),
                old(self).spec_state(),
                old(aligned)@.len(),
                BOOT_MAGIC,
            ) ==> *final(state_flash) == *old(state_flash),
            r is Ok ==> transition_ok(
                *old(state_flash),
                *final(state_flash),
                old(self).spec_state(),
                old(aligned)@.len(),
                BOOT_MAGIC,
            ) && state_of_block(
                block_of(
                    final(state_flash).contents(),
                    old(self).spec_state(),
                    old(aligned)@.len(),
                ),
            ) == State::Boot,
            r matches Err(e) ==> e is Flash,
    {
        let ghost c0 = state_flash.contents();
        let ghost p = self.state;
        let ghost ws = old(aligned)@.len();
        let r = self.set_magic_blocking(aligned, BOOT_MAGIC, state_flash);
        proof {
            if r is Ok {
                if !is_all_bytes(block_of(c0, p, ws), BOOT_MAGIC) {
                    lemma_transition_idempotent(c0, p, ws, BOOT_MAGIC);
                }
                let blk = block_of(state_flash.contents(), p, ws);
                assert(blk[0] == BOOT_MAGIC);
                assert(!is_all_bytes(blk, SWAP_MAGIC));
            }
        }
        r
    }

    /// Verifies the staged image against `public_key` and `signature`, and
    /// only on success marks it for a swap on next boot. The image's bytes
    /// are streamed out of the dfu partition block by block into a SHA-512
    /// digest, so the image is never held in memory whole, and the signature
    /// is checked over that digest. A rejected image performs no state
    /// change at all.
    pub fn verify_and_mark_updated_blocking<F: FlashDevice>(
        &mut self,
        state_and_dfu_flash: &mut F,
        public_key: &[u8],
        signature: &[u8],
        update_len: usize,
        aligned: &mut Vec<u8>,
    ) -> (r: Result<(), FirmwareUpdaterError>)
        requires
            old(self).wf(),
            old(aligned)@.len() == old(state_and_dfu_flash).spec_write_size(),
            1 <= old(aligned)@.len(),
            update_len <= old(self).spec_dfu().spec_len(),
            old(self).spec_dfu().to <= old(state_and_dfu_flash).contents().len(),
            old(self).spec_state().to <= old(state_and_dfu_flash).contents().len(),
        ensures
            *final(self) == *old(self),
            final(aligned)@.len() == old(aligned)@.len(),
            transition_frame(
                *old(state_and_dfu_flash),
                *final(state_and_dfu_flash),
                old(self).spec_state(),
            ),
            ({
                let img = old(state_and_dfu_flash).contents().subrange(
                    old(self).spec_dfu().from as int,
                    old(self).spec_dfu().from + update_len,
                );
                &&& r is Ok ==> ed25519_accepts(public_key@, signature@, sha512_of(img))
                    && transition_ok(
                    *old(state_and_dfu_flash),
                    *final(state_and_dfu_flash),
                    old(self).spec_state(),
                    old(aligned)@.len(),
                    SWAP_MAGIC,
                ) && state_of_block(
                    block_of(
                        final(state_and_dfu_flash).contents(),
                        old(self).spec_state(),
                        old(aligned)@.len(),
                    ),
                ) == State::Swap
                &&& r matches Err(FirmwareUpdaterError::Signature) ==> !ed25519_accepts(
                    public_key@,
                    signature@,
                    sha512_of(img),
                ) && *final(state_and_dfu_flash) == *old(state_and_dfu_flash)
                &&& !ed25519_accepts(public_key@, signature@, sha512_of(img)) ==> !(r is Ok)
            }),
    {
        let ghost c0 = state_and_dfu_flash.contents();
        let ghost dfup = self.dfu;
        let ghost ws = old(aligned)@.len();
        let ghost img = c0.subrange(dfup.from as int, dfup.from + update_len);

        let mut digest = digest_new();
        proof {
            assert(c0.subrange(dfup.from as int, dfup.from as int) =~= Seq::<u8>::empty());
        }
        let mut processed: usize = 0;
        while processed < update_len
            invariant
                processed <= update_len,
                update_len <= dfup.spec_len(),
                *self == *old(self),
                dfup == self.spec_dfu(),
                self.wf(),
                aligned@.len() == ws,
                ws == old(aligned)@.len(),
                1 <= ws,
                *state_and_dfu_flash == *old(state_and_dfu_flash),
                c0 == old(state_and_dfu_flash).contents(),
                dfup.to <= c0.len(),
                digest_fed(digest) == c0.subrange(dfup.from as int, dfup.from + processed),
            decreases update_len - processed,
        {
            match self.dfu.read_blocking(state_and_dfu_flash, processed, aligned) {
                Ok(()) => {},
                Err(e) => {
                    return Err(FirmwareUpdaterError::Flash(e));
                },
            }
            let remaining = update_len - processed;
            let len = if remaining < aligned.len() {
                remaining
            } else {
                aligned.len()
            };
            let chunk = vstd::slice::slice_subrange(aligned.as_slice(), 0, len);
            digest_update(&mut digest, chunk);
            proof {
                assert(c0.subrange(dfup.from as int, dfup.from + processed) + chunk@
                    =~= c0.subrange(dfup.from as int, dfup.from + processed + len));
            }
            processed += len;
        }
        proof {
            assert(digest_fed(digest) == img);
        }
        let digest_bytes = digest_finalize(digest);
        if ed25519_verify(public_key, signature, digest_bytes.as_slice()) {
            let ghost p = self.state;
            let r = self.set_magic_blocking(aligned, SWAP_MAGIC, state_and_dfu_flash);
            proof {
                if r is Ok && !is_all_bytes(block_of(c0, p, ws), SWAP_MAGIC) {
                    lemma_transition_idempotent(c0, p, ws, SWAP_MAGIC);
                }
            }
            r
        } else {
            Err(FirmwareUpdaterError::Signature)
        }
    }

    /// Write data to a flash page of the dfu partition: erase exactly the
    /// byte range `[offset, offset + data.len())`, then write `data` through
    /// the firmware writer in `block_size`-sized chunks. A range that does
    /// not fit in the partition is refused as out of bounds before the
    /// device is touched.
    pub fn write_firmware_blocking<F: FlashDevice>(
        &mut self,
        offset: usize,
        data: &[u8],
        dfu_flash: &mut F,
        block_size: usize,
    ) -> (r: Result<(), FirmwareUpdaterError>)
        requires
            old(self).wf(),
            data@.len() >= old(dfu_flash).spec_erase_size(),
            block_size >= 1,
        ensures
            *final(self) == *old(self),
            final(dfu_flash).spec_write_size() == old(dfu_flash).spec_write_size(),
            final(dfu_flash).spec_erase_size() == old(dfu_flash).spec_erase_size(),
            final(dfu_flash).contents().len() == old(dfu_flash).contents().len(),
            forall|i: int|
                0 <= i < old(dfu_flash).contents().len() && !(old(self).spec_dfu().from + offset
                    <= i < old(self).spec_dfu().from + offset + data@.len()) ==> final(dfu_flash).contents()[i] == old(dfu_flash).contents()[i],
            r is Ok ==> offset + data@.len() <= old(self).spec_dfu().spec_len() && final(dfu_flash).contents() == spec_overwrite(
                old(dfu_flash).contents(),
                old(self).spec_dfu().from + offset,
                data@,
            ),
            offset + data@.len() > old(self).spec_dfu().spec_len() ==> r == Err::<
                (),
                FirmwareUpdaterError,
            >(FirmwareUpdaterError::Flash(FlashErrorKind::OutOfBounds)),
            r matches Err(e) ==> e is Flash,
    {
        let ghost c0 = dfu_flash.contents();
        if offset > self.dfu.len() || data.len() > self.dfu.len() - offset {
            return Err(FirmwareUpdaterError::Flash(FlashErrorKind::OutOfBounds));
        }
        match self.dfu.erase_blocking(dfu_flash, offset, offset + data.len()) {
            Ok(()) => {},
            Err(e) => {
                return Err(FirmwareUpdaterError::Flash(e));
            },
        }
        let writer = FirmwareWriter::new(self.dfu);
        match writer.write_block_blocking(offset, data, dfu_flash, block_size) {
            Ok(()) => {},
            Err(e) => {
                return Err(FirmwareUpdaterError::Flash(e));
            },
        }
        proof {
            assert(dfu_flash.contents() =~= spec_overwrite(
                c0,
                self.spec_dfu().from + offset,
                data@,
            ));
        }
        Ok(())
    }

    /// Prepares for an incoming update by erasing the entire dfu partition
    /// once and returning a writer bound to it, amortizing the erase cost
    /// over the whole image.
    pub fn prepare_update_blocking<F: FlashDevice>(&mut self, flash: &mut F) -> (r: Result<
        FirmwareWriter,
        FirmwareUpdaterError,
    >)
        requires
            old(self).wf(),
        ensures
            *final(self) == *old(self),
            final(flash).spec_write_size() == old(flash).spec_write_size(),
            final(flash).spec_erase_size() == old(flash).spec_erase_size(),
            final(flash).contents().len() == old(flash).contents().len(),
            forall|i: int|
                0 <= i < old(flash).contents().len() && !(old(self).spec_dfu().from <= i < old(self).spec_dfu().to) ==> final(flash).contents()[i] == old(flash).contents()[i],
            r matches Ok(w) ==> w.partition == old(self).spec_dfu() && old(self).spec_dfu().to
                <= old(flash).contents().len() && final(flash).contents() == spec_fill(
                old(flash).contents(),
                old(self).spec_dfu().from as int,
                old(self).spec_dfu().to as int,
                crate::ERASED,
            ),
            r matches Err(e) ==> e is Flash,
    {
        match self.dfu.wipe_blocking(flash) {
            Ok(()) => Ok(FirmwareWriter::new(self.dfu)),
            Err(e) => Err(FirmwareUpdaterError::Flash(e)),
        }
    }
}

} // verus!
