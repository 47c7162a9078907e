//! A thin sequencer that streams an arbitrary-length byte slice into a
//! partition in caller-chosen block-sized chunks.

use vstd::prelude::*;

use crate::flash::FlashDevice;
use crate::flash::FlashErrorKind;
use crate::flash::spec_overwrite;
use crate::partition::Partition;

verus! {

/// Writes firmware bytes into one partition, chunk by chunk.
#[derive(Clone, Copy, Debug)]
pub struct FirmwareWriter {
    /// The partition the writer is bound to.
    pub partition: Partition,
}

impl FirmwareWriter {
    /// A writer bound to `partition`.
    pub fn new(partition: Partition) -> (r: FirmwareWriter)
        ensures
            r.partition == partition,
    {
        FirmwareWriter { partition }
    }

    /// Writes `data` at partition offset `offset`, in chunks of at most
    /// `block_size` bytes. On success the addressed range holds `data`; no
    /// byte outside it is ever touched.
    pub fn write_block_blocking<F: FlashDevice>(
        &self,
        offset: usize,
        data: &[u8],
        flash: &mut F,
        block_size: usize,
    ) -> (r: Result<(), FlashErrorKind>)
        requires
            self.partition.wf(),
            block_size >= 1,
        ensures
            final(flash).spec_write_size() == old(flash).spec_write_size(),
            final(flash).spec_erase_size() == old(flash).spec_erase_size(),
            final(flash).contents().len() == old(flash).contents().len(),
            final(flash).erase_count() == old(flash).erase_count(),
            final(flash).write_count() >= old(flash).write_count(),
            forall|i: int|
                0 <= i < old(flash).contents().len() && !(self.partition.from + offset <= i
                    < self.partition.from + offset + data@.len()) ==> final(flash).contents()[i]
                    == old(flash).contents()[i],
            r is Ok ==> offset + data@.len() <= self.partition.spec_len() && final(flash).contents() == spec_overwrite(
                old(flash).contents(),
                self.partition.from + offset,
                data@,
            ),
            offset + data@.len() > self.partition.spec_len() ==> r == Err::<(), FlashErrorKind>(
                FlashErrorKind::OutOfBounds,
            ),
    {
        if offset > self.partition.len() || data.len() > self.partition.len() - offset {
            return Err(FlashErrorKind::OutOfBounds);
        }
        let n = data.len();
        let base = self.partition.from + offset;
        let mut written: usize = 0;
        while written < n
            invariant
                written <= n,
                n == data@.len(),
                block_size >= 1,
                self.partition.wf(),
                offset + n <= self.partition.spec_len(),
                base == self.partition.from + offset,
                flash.spec_write_size() == old(flash).spec_write_size(),
                flash.spec_erase_size() == old(flash).spec_erase_size(),
                flash.contents().len() == old(flash).contents().len(),
                flash.erase_count() == old(flash).erase_count(),
                flash.write_count() >= old(flash).write_count(),
                flash.contents() == spec_overwrite(
                    old(flash).contents(),
                    base as int,
                    data@.subrange(0, written as int),
                ),
            decreases n - written,
        {
            let chunk = if n - written < block_size {
                n - written
            } else {
                block_size
            };
            let part = vstd::slice::slice_subrange(data, written, written + chunk);
            match self.partition.write_blocking(flash, offset + written, part) {
                Ok(()) => {},
                Err(e) => {
                    return Err(e);
                },
            }
            proof {
                assert(flash.contents() =~= spec_overwrite(
                    old(flash).contents(),
                    base as int,
                    data@.subrange(0, written + chunk),
                ));
            }
            written += chunk;
        }
        proof {
            assert(data@.subrange(0, n as int) =~= data@);
        }
        Ok(())
    }
}

} // verus!
