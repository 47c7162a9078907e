//! A bounds-checked window into a flash device. Every operation is addressed
//! relative to the partition's start and is refused with `OutOfBounds` before
//! the device is touched whenever it would leave the window.

use vstd::prelude::*;

use crate::ERASED;
use crate::flash::FlashDevice;
use crate::flash::FlashErrorKind;
use crate::flash::spec_fill;
use crate::flash::spec_overwrite;

verus! {

/// A contiguous window `[from, to)` of a flash device's address space.
#[derive(Clone, Copy, Debug, PartialEq, Eq, Structural)]
pub struct Partition {
    /// First byte address of the window.
    pub from: usize,
    /// One past the last byte address of the window.
    pub to: usize,
}

impl Partition {
    /// A partition descriptor is well-formed when its window is not inverted.
    pub open spec fn wf(&self) -> bool {
        self.from <= self.to
    }

    /// The window's length in bytes.
    pub open spec fn spec_len(&self) -> int {
        self.to - self.from
    }

    /// Creates a partition over the absolute address range `[from, to)`.
    pub fn new(from: usize, to: usize) -> (r: Partition)
        requires
            from <= to,
        ensures
            r.from == from,
            r.to == to,
            r.wf(),
    {
        Partition { from, to }
    }

    /// The window's length in bytes.
    pub fn len(&self) -> (r: usize)
        requires
            self.wf(),
        ensures
            r == self.spec_len(),
    {
        self.to - self.from
    }

    /// Reads `buf.len()` bytes at partition offset `offset` into `buf`.
    pub fn read_blocking<F: FlashDevice>(
        &self,
        flash: &mut F,
        offset: usize,
        buf: &mut Vec<u8>,
    ) -> (r: Result<(), FlashErrorKind>)
        requires
            self.wf(),
        ensures
            *final(flash) == *old(flash),
            final(buf)@.len() == old(buf)@.len(),
            r is Ok ==> offset + old(buf)@.len() <= self.spec_len() && self.from + offset + old(buf)@.len() <= old(flash).contents().len() && final(buf)@ == old(flash).contents().subrange(
                self.from + offset,
                self.from + offset + old(buf)@.len(),
            ),
    {
        if offset > self.len() || buf.len() > self.len() - offset {
            return Err(FlashErrorKind::OutOfBounds);
        }
        flash.read(self.from + offset, buf)
    }

    /// Writes `buf` at partition offset `offset`.
    pub fn write_blocking<F: FlashDevice>(
        &self,
        flash: &mut F,
        offset: usize,
        buf: &[u8],
    ) -> (r: Result<(), FlashErrorKind>)
        requires
            self.wf(),
        ensures
            final(flash).spec_write_size() == old(flash).spec_write_size(),
            final(flash).spec_erase_size() == old(flash).spec_erase_size(),
            final(flash).contents().len() == old(flash).contents().len(),
            final(flash).erase_count() == old(flash).erase_count(),
            final(flash).write_count() >= old(flash).write_count(),
            forall|i: int|
                0 <= i < old(flash).contents().len() && !(self.from + offset <= i < self.from
                    + offset + buf@.len()) ==> final(flash).contents()[i] == old(flash).contents()[i],
            r is Ok ==> offset + buf@.len() <= self.spec_len() && self.from + offset + buf@.len()
                <= old(flash).contents().len() && final(flash).contents() == spec_overwrite(
                old(flash).contents(),
                self.from + offset,
                buf@,
            ),
    {
        if offset > self.len() || buf.len() > self.len() - offset {
            return Err(FlashErrorKind::OutOfBounds);
        }
        flash.write(self.from + offset, buf)
    }

    /// Erases the partition-relative range `[from, to)` back to `ERASED`.
    pub fn erase_blocking<F: FlashDevice>(
        &self,
        flash: &mut F,
        from: usize,
        to: usize,
    ) -> (r: Result<(), FlashErrorKind>)
        requires
            self.wf(),
        ensures
            final(flash).spec_write_size() == old(flash).spec_write_size(),
            final(flash).spec_erase_size() == old(flash).spec_erase_size(),
            final(flash).contents().len() == old(flash).contents().len(),
            final(flash).write_count() == old(flash).write_count(),
            final(flash).erase_count() >= old(flash).erase_count(),
            forall|i: int|
                0 <= i < old(flash).contents().len() && !(self.from + from <= i < self.from + to)
                    ==> final(flash).contents()[i] == old(flash).contents()[i],
            from > to || to > self.spec_len() ==> r == Err::<(), FlashErrorKind>(
                FlashErrorKind::OutOfBounds,
            ) && *final(flash) == *old(flash),
            r is Ok ==> from <= to <= self.spec_len() && self.from + to <= old(flash).contents().len() && final(flash).contents() == spec_fill(
                old(flash).contents(),
                self.from + from,
                self.from + to,
                ERASED,
            ),
    {
        if from > to || to > self.len() {
            return Err(FlashErrorKind::OutOfBounds);
        }
        flash.erase(self.from + from, self.from + to)
    }

    /// Erases the whole partition back to `ERASED`.
    pub fn wipe_blocking<F: FlashDevice>(&self, flash: &mut F) -> (r: Result<(), FlashErrorKind>)
        requires
            self.wf(),
        ensures
            final(flash).spec_write_size() == old(flash).spec_write_size(),
            final(flash).spec_erase_size() == old(flash).spec_erase_size(),
            final(flash).contents().len() == old(flash).contents().len(),
            final(flash).write_count() == old(flash).write_count(),
            final(flash).erase_count() >= old(flash).erase_count(),
            forall|i: int|
                0 <= i < old(flash).contents().len() && !(self.from <= i < self.to) ==> final(flash).contents()[i] == old(flash).contents()[i],
            r is Ok ==> self.to <= old(flash).contents().len() && final(flash).contents()
                == spec_fill(old(flash).contents(), self.from as int, self.to as int, ERASED),
    {
        self.erase_blocking(flash, 0, self.len())
    }
}

} // verus!
