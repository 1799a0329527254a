use vstd::prelude::*;

use crate::error::VmError;

verus! {

/// The 16-bit word stored big-endian at `addr`: the byte at `addr` is the
/// high byte, the byte at `addr + 1` the low byte.
pub open spec fn word_at(mem: Seq<u8>, addr: int) -> int
    recommends
        0 <= addr,
        addr + 1 < mem.len(),
{
    mem[addr] * 256 + mem[addr + 1]
}

/// `mem` after storing `value` big-endian at `addr` and `addr + 1`.
pub open spec fn store16(mem: Seq<u8>, addr: int, value: u16) -> Seq<u8>
    recommends
        0 <= addr,
        addr + 1 < mem.len(),
{
    mem.update(addr, (value / 256) as u8).update(addr + 1, (value % 256) as u8)
}

/// A bounded, byte-addressable store. `contents` is the full byte image; its
/// length is the capacity, fixed over the value's lifetime (every operation
/// below keeps it).
///
/// Each operation is bounds-checked: it touches memory if and only if the
/// whole addressed range lies strictly below the capacity, and otherwise
/// fails with `OutOfBoundsAccess` leaving the contents unchanged. The 16-bit
/// operations access the bytes at `addr` and `addr + 1` in a fixed byte
/// order (big-endian), the same for reading and writing, so that a written
/// word reads back exactly.
///
/// The execution engine is generic over this capability, so an alternative
/// backend (sparse, memory-mapped, instrumented) can replace the linear one
/// without any change to the engine.
pub trait Addressable: Sized {
    /// The byte image of this memory; its length is the capacity.
    spec fn contents(&self) -> Seq<u8>;

    /// Read the byte at `addr`.
    fn read(&self, addr: u16) -> (r: Result<u8, VmError>)
        ensures
            (addr as int) < self.contents().len() ==> r == Ok::<u8, VmError>(
                self.contents()[addr as int],
            ),
            (addr as int) >= self.contents().len() ==> r == Err::<u8, VmError>(
                VmError::OutOfBoundsAccess,
            ),
    ;

    /// Write `value` at `addr`.
    fn write(&mut self, addr: u16, value: u8) -> (r: Result<(), VmError>)
        ensures
            (addr as int) < old(self).contents().len() ==> (r == Ok::<(), VmError>(())
                && final(self).contents() == old(self).contents().update(addr as int, value)),
            (addr as int) >= old(self).contents().len() ==> (r == Err::<(), VmError>(
                VmError::OutOfBoundsAccess,
            ) && final(self).contents() == old(self).contents()),
    ;

    /// Read the 16-bit word stored big-endian at `addr` and `addr + 1`.
    fn read_u16(&self, addr: u16) -> (r: Result<u16, VmError>)
        ensures
            addr + 1 < self.contents().len() ==> r == Ok::<u16, VmError>(
                word_at(self.contents(), addr as int) as u16,
            ),
            addr + 1 >= self.contents().len() ==> r == Err::<u16, VmError>(
                VmError::OutOfBoundsAccess,
            ),
    ;

    /// Write `value` big-endian at `addr` and `addr + 1`. The bounds check
    /// covers both bytes before either is touched: a failing write mutates
    /// nothing.
    fn write_u16(&mut self, addr: u16, value: u16) -> (r: Result<(), VmError>)
        ensures
            addr + 1 < old(self).contents().len() ==> (r == Ok::<(), VmError>(())
                && final(self).contents() == store16(old(self).contents(), addr as int, value)),
            addr + 1 >= old(self).contents().len() ==> (r == Err::<(), VmError>(
                VmError::OutOfBoundsAccess,
            ) && final(self).contents() == old(self).contents()),
    ;
}

/// The linear backend: one owned, contiguous byte buffer.
pub struct LinearMemory {
    data: Vec<u8>,
}

impl LinearMemory {
    /// A zero-filled store of `size_bytes` bytes.
    pub fn new(size_bytes: usize) -> (m: Self)
        ensures
            m.contents() == Seq::new(size_bytes as nat, |i: int| 0u8),
    {
        let data: Vec<u8> = vec![0u8; size_bytes];
        let m = LinearMemory { data };
        proof {
            assert(m.contents() =~= Seq::new(size_bytes as nat, |i: int| 0u8));
        }
        m
    }

    /// The capacity in bytes.
    pub fn capacity(&self) -> (n: usize)
        ensures
            n == self.contents().len(),
    {
        self.data.len()
    }
}

impl Addressable for LinearMemory {
    closed spec fn contents(&self) -> Seq<u8> {
        self.data@
    }

    fn read(&self, addr: u16) -> (r: Result<u8, VmError>) {
        if (addr as usize) < self.data.len() {
            Ok(self.data[addr as usize])
        } else {
            Err(VmError::OutOfBoundsAccess)
        }
    }

    fn write(&mut self, addr: u16, value: u8) -> (r: Result<(), VmError>) {
        if (addr as usize) < self.data.len() {
            self.data[addr as usize] = value;
            Ok(())
        } else {
            Err(VmError::OutOfBoundsAccess)
        }
    }

    fn read_u16(&self, addr: u16) -> (r: Result<u16, VmError>) {
        if (addr as usize) < self.data.len() && (addr as usize) + 1 < self.data.len() {
            let hi = self.data[addr as usize];
            let lo = self.data[addr as usize + 1];
            Ok((hi as u16) * 256 + (lo as u16))
        } else {
            Err(VmError::OutOfBoundsAccess)
        }
    }

    fn write_u16(&mut self, addr: u16, value: u16) -> (r: Result<(), VmError>) {
        if (addr as usize) < self.data.len() && (addr as usize) + 1 < self.data.len() {
            self.data[addr as usize] = (value / 256) as u8;
            self.data[addr as usize + 1] = (value % 256) as u8;
            Ok(())
        } else {
            Err(VmError::OutOfBoundsAccess)
        }
    }
}

/// A word written with [`store16`] reads back exactly with [`word_at`]: the
/// two fixed-order byte stores and the matching byte reads are inverse.
pub proof fn lemma_word_roundtrip(mem: Seq<u8>, addr: int, value: u16)
    requires
        0 <= addr,
        addr + 1 < mem.len(),
    ensures
        word_at(store16(mem, addr, value), addr) == value,
{
    assert(value == (value / 256) * 256 + (value % 256));
}

} // verus!
