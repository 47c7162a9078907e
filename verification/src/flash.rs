//! The flash-device capability the library operates over: byte-addressable
//! reads, writes, and range erases, together with the device's write and
//! erase granularities, and an in-memory device for host-side use.

use vstd::prelude::*;

use crate::ERASED;
use crate::is_all_bytes;

verus! {

/// Classification of a failed flash operation, mirroring the error kinds a
/// raw NOR-flash driver reports.
#[derive(Clone, Copy, Debug, PartialEq, Eq, Structural)]
pub enum FlashErrorKind {
    /// The operation touched addresses outside the device or partition.
    OutOfBounds,
    /// The operation broke the device's alignment rules.
    NotAligned,
    /// Any other device-specific failure.
    Other,
}

/// `c` with the range `[at, at + d.len())` replaced by `d`.
pub open spec fn spec_overwrite(c: Seq<u8>, at: int, d: Seq<u8>) -> Seq<u8> {
    Seq::new(c.len(), |i: int| if at <= i < at + d.len() { d[i - at] } else { c[i] })
}

/// `c` with every byte of `[from, to)` set to `b`.
pub open spec fn spec_fill(c: Seq<u8>, from: int, to: int, b: u8) -> Seq<u8> {
    Seq::new(c.len(), |i: int| if from <= i < to { b } else { c[i] })
}

/// A flash device. `contents()` is the device's byte array; a successful
/// write or erase changes exactly the addressed range, and even a failing one
/// never touches bytes outside it. The operation counters let callers state
/// that an operation left the device alone (wear: an idempotent transition
/// must not rewrite the state block).
///
/// No operation is owed success: a real device may fail at any time, and the
/// contracts here only pin down what each outcome means.
pub trait FlashDevice: Sized {
    /// The device's bytes.
    spec fn contents(&self) -> Seq<u8>;

    /// The device's write granularity in bytes.
    spec fn spec_write_size(&self) -> nat;

    /// The device's erase granularity in bytes.
    spec fn spec_erase_size(&self) -> nat;

    /// How many write operations the device has performed.
    spec fn write_count(&self) -> nat;

    /// How many erase operations the device has performed.
    spec fn erase_count(&self) -> nat;

    /// Reads `buf.len()` bytes starting at `offset` into `buf`. The device
    /// itself is left exactly as it was.
    fn read(&mut self, offset: usize, buf: &mut Vec<u8>) -> (r: Result<(), FlashErrorKind>)
        ensures
            *final(self) == *old(self),
            final(buf)@.len() == old(buf)@.len(),
            r is Ok ==> offset + old(buf)@.len() <= old(self).contents().len() && final(buf)@ == old(self).contents().subrange(offset as int, offset + old(buf)@.len()),
    ;

    /// Writes `buf` at `offset`. On success the addressed range holds `buf`;
    /// whatever happens, no byte outside the range changes.
    fn write(&mut self, offset: usize, buf: &[u8]) -> (r: Result<(), FlashErrorKind>)
        ensures
            final(self).spec_write_size() == old(self).spec_write_size(),
            final(self).spec_erase_size() == old(self).spec_erase_size(),
            final(self).contents().len() == old(self).contents().len(),
            final(self).erase_count() == old(self).erase_count(),
            final(self).write_count() >= old(self).write_count(),
            forall|i: int|
                0 <= i < old(self).contents().len() && !(offset <= i < offset + buf@.len())
                    ==> final(self).contents()[i] == old(self).contents()[i],
            r is Ok ==> offset + buf@.len() <= old(self).contents().len() && final(self).contents() == spec_overwrite(old(self).contents(), offset as int, buf@),
    ;

    /// Erases the range `[from, to)` back to `ERASED`. On success the range is
    /// blank; whatever happens, no byte outside it changes.
    fn erase(&mut self, from: usize, to: usize) -> (r: Result<(), FlashErrorKind>)
        ensures
            final(self).spec_write_size() == old(self).spec_write_size(),
            final(self).spec_erase_size() == old(self).spec_erase_size(),
            final(self).contents().len() == old(self).contents().len(),
            final(self).write_count() == old(self).write_count(),
            final(self).erase_count() >= old(self).erase_count(),
            forall|i: int|
                0 <= i < old(self).contents().len() && !(from <= i < to) ==> final(self).contents()[i] == old(self).contents()[i],
            r is Ok ==> from <= to <= old(self).contents().len() && final(self).contents()
                == spec_fill(old(self).contents(), from as int, to as int, ERASED),
    ;
}

/// An in-memory flash device. It backs the library's tests and any host-side
/// use, counts the write and erase operations performed on it, and rejects
/// out-of-range operations with `OutOfBounds`.
pub struct MemFlash {
    /// The device's bytes.
    pub data: Vec<u8>,
    /// Declared write granularity.
    pub write_size: usize,
    /// Declared erase granularity.
    pub erase_size: usize,
    /// Number of write operations performed.
    pub writes: u64,
    /// Number of erase operations performed.
    pub erases: u64,
}

impl MemFlash {
    /// A blank device of `size` bytes with the given granularities.
    pub fn new(size: usize, write_size: usize, erase_size: usize) -> (r: MemFlash)
        ensures
            r.contents().len() == size,
            is_all_bytes(r.contents(), ERASED),
            r.spec_write_size() == write_size,
            r.spec_erase_size() == erase_size,
            r.write_count() == 0,
            r.erase_count() == 0,
    {
        let mut data: Vec<u8> = Vec::new();
        let mut i: usize = 0;
        while i < size
            invariant
                i <= size,
                data@.len() == i,
                forall|j: int| 0 <= j < i ==> data@[j] == ERASED,
            decreases size - i,
        {
            data.push(ERASED);
            i += 1;
        }
        MemFlash { data, write_size, erase_size, writes: 0, erases: 0 }
    }

    /// Pre-loads bytes directly, without counting a write: lets a caller
    /// fabricate a device state.
    pub fn program(&mut self, offset: usize, bytes: &[u8])
        requires
            offset + bytes@.len() <= old(self).contents().len(),
        ensures
            final(self).contents() == spec_overwrite(
                old(self).contents(),
                offset as int,
                bytes@,
            ),
            final(self).spec_write_size() == old(self).spec_write_size(),
            final(self).spec_erase_size() == old(self).spec_erase_size(),
            final(self).write_count() == old(self).write_count(),
            final(self).erase_count() == old(self).erase_count(),
    {
        let n = bytes.len();
        let cap = self.data.len();
        let mut i: usize = 0;
        while i < n
            invariant
                i <= n,
                n == bytes@.len(),
                cap == self.data@.len(),
                offset + n <= cap,
                self.data@.len() == old(self).data@.len(),
                self.write_size == old(self).write_size,
                self.erase_size == old(self).erase_size,
                self.writes == old(self).writes,
                self.erases == old(self).erases,
                forall|j: int| offset <= j < offset + i ==> self.data@[j] == bytes@[j - offset],
                forall|j: int|
                    0 <= j < self.data@.len() && !(offset <= j < offset + i) ==> self.data@[j]
                        == old(self).data@[j],
            decreases bytes@.len() - i,
        {
            let b = bytes[i];
            self.data.set(offset + i, b);
            i += 1;
        }
        proof {
            assert(self.data@ =~= spec_overwrite(old(self).data@, offset as int, bytes@));
        }
    }

    /// The byte at address `i`.
    pub fn byte_at(&self, i: usize) -> (r: u8)
        requires
            i < self.contents().len(),
        ensures
            r == self.contents()[i as int],
    {
        self.data[i]
    }

    /// The device's size in bytes.
    pub fn capacity(&self) -> (r: usize)
        ensures
            r == self.contents().len(),
    {
        self.data.len()
    }
}

impl FlashDevice for MemFlash {
    open spec fn contents(&self) -> Seq<u8> {
        self.data@
    }

    open spec fn spec_write_size(&self) -> nat {
        self.write_size as nat
    }

    open spec fn spec_erase_size(&self) -> nat {
        self.erase_size as nat
    }

    open spec fn write_count(&self) -> nat {
        self.writes as nat
    }

    open spec fn erase_count(&self) -> nat {
        self.erases as nat
    }

    fn read(&mut self, offset: usize, buf: &mut Vec<u8>) -> (r: Result<(), FlashErrorKind>) {
        if offset > self.data.len() || buf.len() > self.data.len() - offset {
            return Err(FlashErrorKind::OutOfBounds);
        }
        let n = buf.len();
        let cap = self.data.len();
        let mut i: usize = 0;
        while i < n
            invariant
                i <= n,
                buf@.len() == n,
                cap == self.data@.len(),
                offset + n <= cap,
                *self == *old(self),
                forall|j: int| 0 <= j < i ==> buf@[j] == self.data@[offset + j],
            decreases n - i,
        {
            let b = self.data[offset + i];
            buf.set(i, b);
            i += 1;
        }
        proof {
            assert(buf@ =~= self.data@.subrange(offset as int, offset + n));
        }
        Ok(())
    }

    fn write(&mut self, offset: usize, buf: &[u8]) -> (r: Result<(), FlashErrorKind>) {
        if offset > self.data.len() || buf.len() > self.data.len() - offset {
            return Err(FlashErrorKind::OutOfBounds);
        }
        if self.writes < u64::MAX {
            self.writes = self.writes + 1;
        }
        let n = buf.len();
        let cap = self.data.len();
        let mut i: usize = 0;
        while i < n
            invariant
                i <= n,
                n == buf@.len(),
                cap == self.data@.len(),
                offset + n <= cap,
                self.data@.len() == old(self).data@.len(),
                self.write_size == old(self).write_size,
                self.erase_size == old(self).erase_size,
                self.writes >= old(self).writes,
                self.erases == old(self).erases,
                forall|j: int| offset <= j < offset + i ==> self.data@[j] == buf@[j - offset],
                forall|j: int|
                    0 <= j < self.data@.len() && !(offset <= j < offset + i) ==> self.data@[j]
                        == old(self).data@[j],
            decreases n - i,
        {
            let b = buf[i];
            self.data.set(offset + i, b);
            i += 1;
        }
        proof {
            assert(self.data@ =~= spec_overwrite(old(self).data@, offset as int, buf@));
        }
        Ok(())
    }

    fn erase(&mut self, from: usize, to: usize) -> (r: Result<(), FlashErrorKind>) {
        if from > to || to > self.data.len() {
            return Err(FlashErrorKind::OutOfBounds);
        }
        if self.erases < u64::MAX {
            self.erases = self.erases + 1;
        }
        let cap = self.data.len();
        let mut i: usize = from;
        while i < to
            invariant
                from <= i <= to,
                cap == self.data@.len(),
                to <= cap,
                self.data@.len() == old(self).data@.len(),
                self.write_size == old(self).write_size,
                self.erase_size == old(self).erase_size,
                self.writes == old(self).writes,
                self.erases >= old(self).erases,
                forall|j: int| from <= j < i ==> self.data@[j] == ERASED,
                forall|j: int|
                    0 <= j < self.data@.len() && !(from <= j < i) ==> self.data@[j] == old(self).data@[j],
            decreases to - i,
        {
            self.data.set(i, ERASED);
            i += 1;
        }
        proof {
            assert(self.data@ =~= spec_fill(old(self).data@, from as int, to as int, ERASED));
        }
        Ok(())
    }
}

} // verus!
