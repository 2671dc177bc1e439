//! Foreign bit sets: packed bytes behind a pointer, with a byte length.

use vstd::prelude::*;
use crate::memory::{ProcessMemory, POINTER_SIZE};

verus! {

/// Longest flag set, in bytes, that is read; a longer one is corrupt.
pub const MAX_FLAG_BYTES: u32 = 1000;

/// Bit `j` of byte `b`, counting from the least significant.
pub open spec fn bit_of(b: u8, j: int) -> bool {
    0 <= j < 8 && (b >> (j as u8)) & 1u8 == 1u8
}

/// A fixed-size array of bits, eight to a byte.
pub struct BitArray {
    data: Vec<u8>,
    size: usize,
}

impl BitArray {
    pub closed spec fn wf(&self) -> bool {
        self.data@.len() * 8 >= self.size
    }

    /// The bits, in order.
    pub closed spec fn view(&self) -> Seq<bool> {
        Seq::new(self.size as nat, |i: int| bit_of(self.data@[i / 8], i % 8))
    }

    /// `size` bits, all clear.
    pub fn new(size: usize) -> (r: BitArray)
        ensures
            r.wf(),
            r.view().len() == size,
            forall|i: int| 0 <= i < size ==> !(#[trigger] r.view()[i]),
    {
        let byte_size = size / 8 + if size % 8 == 0 { 0 } else { 1 };
        let data: Vec<u8> = vec![0u8; byte_size];
        let r = BitArray { data, size };
        assert forall|i: int| 0 <= i < size implies !(#[trigger] r.view()[i]) by {
            assert(r.data@[i / 8] == 0u8);
            let m = (i % 8) as u8;
            assert((0u8 >> m) & 1u8 == 0u8) by (bit_vector);
        }
        r
    }

    /// The bits that `bytes` pack.
    pub fn from_bytes(bytes: Vec<u8>) -> (r: BitArray)
        requires
            bytes@.len() * 8 <= usize::MAX,
        ensures
            r.wf(),
            r.view().len() == bytes@.len() * 8,
            forall|i: int| 0 <= i < bytes@.len() * 8 ==> #[trigger] r.view()[i] == bit_of(bytes@[i / 8], i % 8),
    {
        let size = bytes.len() * 8;
        BitArray { data: bytes, size }
    }

    /// Bit `index`, or `None` past the end.
    pub fn get(&self, index: usize) -> (r: Option<bool>)
        requires
            self.wf(),
        ensures
            index < self.view().len() ==> r == Some(self.view()[index as int]),
            index >= self.view().len() ==> r is None,
    {
        if index >= self.size {
            return None;
        }
        let byte = self.data[index / 8];
        let j = (index % 8) as u8;
        Some((byte >> j) & 1u8 == 1u8)
    }

    /// Sets bit `index` to `value`; past the end nothing changes.
    pub fn set(&mut self, index: usize, value: bool) -> (r: Result<(), &'static str>)
        requires
            old(self).wf(),
        ensures
            final(self).wf(),
            index < old(self).view().len() ==> r is Ok && final(self).view() == old(self).view().update(index as int, value),
            index >= old(self).view().len() ==> r == Err::<(), &'static str>("Index out of bounds") && final(self).view() == old(self).view(),
    {
        if index >= self.size {
            return Err("Index out of bounds");
        }
        let ghost before = self.view();
        let k = index / 8;
        let j = (index % 8) as u8;
        let old_byte = self.data[k];
        let new_byte = if value {
            old_byte | (1u8 << j)
        } else {
            old_byte & !(1u8 << j)
        };
        self.data.set(k, new_byte);
        assert(self.view() =~= before.update(index as int, value)) by {
            assert forall|i: int| 0 <= i < self.size implies #[trigger] self.view()[i] == before.update(
                index as int,
                value,
            )[i] by {
                if i / 8 == k as int {
                    let m = (i % 8) as u8;
                    if i == index {
                        assert(m == j);
                        if value {
                            assert(((old_byte | (1u8 << j)) >> j) & 1u8 == 1u8) by (bit_vector)
                                requires
                                    j < 8,
                            ;
                        } else {
                            assert(((old_byte & !(1u8 << j)) >> j) & 1u8 == 0u8) by (bit_vector)
                                requires
                                    j < 8,
                            ;
                        }
                    } else {
                        assert(m != j);
                        assert(((old_byte | (1u8 << j)) >> m) & 1u8 == (old_byte >> m) & 1u8)
                            by (bit_vector)
                            requires
                                j < 8,
                                m < 8,
                                m != j,
                        ;
                        assert(((old_byte & !(1u8 << j)) >> m) & 1u8 == (old_byte >> m) & 1u8)
                            by (bit_vector)
                            requires
                                j < 8,
                                m < 8,
                                m != j,
                        ;
                    }
                }
            }
        }
        Ok(())
    }

    pub fn size(&self) -> (r: usize)
        ensures
            r == self.view().len(),
    {
        self.size
    }
}

impl Clone for BitArray {
    fn clone(&self) -> (r: BitArray)
        ensures
            r.view() == self.view(),
            r.wf() == self.wf(),
    {
        BitArray { data: self.data.clone(), size: self.size }
    }
}

/// A foreign flag set together with the address it was read from.
pub struct FlagArray {
    pub address: u64,
    pub flags: BitArray,
}

/// The bits of the flag set whose header (pointer, then byte length) is at
/// `a`: empty when the length exceeds the ceiling, else bit `i` is bit
/// `i % 8` of byte `i / 8`.
pub open spec fn flags_at(mem: &ProcessMemory, a: int) -> Seq<bool> {
    let n = mem.u32_at(a + POINTER_SIZE);
    if n > MAX_FLAG_BYTES {
        Seq::empty()
    } else {
        Seq::new((n * 8) as nat, |i: int| bit_of(mem.byte(mem.u64_at(a) + i / 8), i % 8))
    }
}

impl FlagArray {
    pub open spec fn wf(&self) -> bool {
        self.flags.wf()
    }

    /// Reads the flag set whose header is at `address`.
    pub fn new(mem: &ProcessMemory, address: u64) -> (r: FlagArray)
        ensures
            r.wf(),
            r.address == address,
            r.flags.view() == flags_at(mem, address as int),
    {
        let ptr = mem.read_u64(address, 0);
        let n = mem.read_u32(address, POINTER_SIZE);
        if n > MAX_FLAG_BYTES {
            let flags = BitArray::new(0);
            assert(flags.view() =~= flags_at(mem, address as int));
            return FlagArray { address, flags };
        }
        let bytes = mem.read_bytes(ptr, 0, n as u64);
        let flags = BitArray::from_bytes(bytes);
        assert(flags.view() =~= flags_at(mem, address as int));
        FlagArray { address, flags }
    }

    pub fn default() -> (r: FlagArray)
        ensures
            r.wf(),
            r.address == 0,
            r.flags.view().len() == 0,
    {
        FlagArray { address: 0, flags: BitArray::new(0) }
    }

    /// Flag `i`, false where the set is shorter.
    pub fn flag(&self, i: usize) -> (r: bool)
        requires
            self.wf(),
        ensures
            r == (i < self.flags.view().len() && self.flags.view()[i as int]),
    {
        match self.flags.get(i) {
            Some(b) => b,
            None => false,
        }
    }
}

impl Clone for FlagArray {
    fn clone(&self) -> (r: FlagArray)
        ensures
            r.address == self.address,
            r.flags.view() == self.flags.view(),
            r.wf() == self.wf(),
    {
        FlagArray { address: self.address, flags: self.flags.clone() }
    }
}

/// A declared length of zero, or one above the ceiling, gives a set in
/// which every query answers false.
pub proof fn lemma_empty_flag_set(mem: &ProcessMemory, a: int)
    requires
        mem.u32_at(a + POINTER_SIZE) == 0 || mem.u32_at(a + POINTER_SIZE) > MAX_FLAG_BYTES,
    ensures
        flags_at(mem, a).len() == 0,
{
}

} // verus!
