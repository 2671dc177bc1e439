//! A readable image of a foreign process's address space, and the
//! fixed-width and dynamic-array reads that every decoder is built on.

use vstd::prelude::*;

verus! {

/// Width in bytes of a pointer in the foreign process.
pub const POINTER_SIZE: u64 = 8;

/// Largest span, in bytes, that a dynamic array may cover before it is
/// treated as the product of a corrupt pointer.
pub const MAX_VECTOR_BYTES: u64 = 0x100_0000;

/// `a + b` in the 64-bit address space, wrapping past the top.
pub open spec fn wrap_add(a: u64, b: u64) -> u64 {
    if a + b <= u64::MAX {
        (a + b) as u64
    } else {
        (a + b - 0x1_0000_0000_0000_0000) as u64
    }
}

/// `a + b` in the 64-bit address space, wrapping past the top.
pub fn add_addr(a: u64, b: u64) -> (r: u64)
    ensures
        r == wrap_add(a, b),
{
    match a.checked_add(b) {
        Some(s) => s,
        None => b - (u64::MAX - a) - 1,
    }
}

/// One contiguous mapped block of the foreign address space.
pub struct MemoryRegion {
    pub base: u64,
    pub bytes: Vec<u8>,
}

/// The bytes of an attached process that the decoders may read. Addresses
/// that fall in no region read as zero, as a failed read does.
pub struct ProcessMemory {
    pub pid: u32,
    pub module_base: u64,
    pub regions: Vec<MemoryRegion>,
}

pub open spec fn region_has(r: MemoryRegion, a: int) -> bool {
    &&& r.base <= a
    &&& a < r.base + r.bytes@.len()
    &&& a <= u64::MAX
}

/// The byte at `a`, taken from the first region at or after `i` that maps it.
pub open spec fn byte_from(regions: Seq<MemoryRegion>, i: int, a: int) -> u8
    decreases regions.len() - i,
{
    if i < 0 || i >= regions.len() {
        0
    } else if region_has(regions[i], a) {
        regions[i].bytes@[a - regions[i].base]
    } else {
        byte_from(regions, i + 1, a)
    }
}

pub open spec fn le_u16(s: Seq<u8>) -> int {
    s[0] + 256 * s[1]
}

pub open spec fn le_u32(s: Seq<u8>) -> int {
    s[0] + 256 * s[1] + 65536 * s[2] + 16777216 * s[3]
}

pub open spec fn le_u64(s: Seq<u8>) -> int {
    le_u32(s.subrange(0, 4)) + 4294967296 * le_u32(s.subrange(4, 8))
}

pub open spec fn signed16(v: int) -> int {
    if v < 0x8000 { v } else { v - 0x10000 }
}

pub open spec fn signed32(v: int) -> int {
    if v < 0x8000_0000 { v } else { v - 0x1_0000_0000 }
}

/// Number of elements of width `width` between `start` and `end`, or zero
/// where the bounds are reversed, the width is zero or the span is absurd.
pub open spec fn vector_count(start: int, end: int, width: int) -> int {
    if end < start || width <= 0 || end - start > MAX_VECTOR_BYTES {
        0
    } else {
        (end - start) / width
    }
}

impl ProcessMemory {
    pub open spec fn byte(&self, a: int) -> u8 {
        byte_from(self.regions@, 0, a)
    }

    pub open spec fn bytes(&self, a: int, n: int) -> Seq<u8> {
        Seq::new(n as nat, |k: int| self.byte(a + k))
    }

    pub open spec fn u8_at(&self, a: int) -> int {
        self.byte(a) as int
    }

    pub open spec fn u16_at(&self, a: int) -> int {
        le_u16(self.bytes(a, 2))
    }

    pub open spec fn i16_at(&self, a: int) -> int {
        signed16(self.u16_at(a))
    }

    pub open spec fn u32_at(&self, a: int) -> int {
        le_u32(self.bytes(a, 4))
    }

    pub open spec fn i32_at(&self, a: int) -> int {
        signed32(self.u32_at(a))
    }

    pub open spec fn u64_at(&self, a: int) -> int {
        le_u64(self.bytes(a, 8))
    }

    /// Start and end pointers of the dynamic array whose header is at `a`.
    pub open spec fn vec_start(&self, a: int) -> int {
        self.u64_at(a)
    }

    pub open spec fn vec_end(&self, a: int) -> int {
        self.u64_at(a + POINTER_SIZE)
    }

    pub open spec fn vec_len(&self, a: int, width: int) -> int {
        vector_count(self.vec_start(a), self.vec_end(a), width)
    }

    /// The `i`-th pointer of the pointer array whose header is at `a`.
    pub open spec fn vec_ptr(&self, a: int, i: int) -> int {
        self.u64_at(self.vec_start(a) + POINTER_SIZE * i)
    }

    /// An image with no mapped bytes.
    pub fn new(pid: u32, module_base: u64) -> (r: ProcessMemory)
        ensures
            r.pid == pid,
            r.module_base == module_base,
            r.regions@.len() == 0,
    {
        ProcessMemory { pid, module_base, regions: Vec::new() }
    }

    /// Maps `bytes` at `base`; bytes already mapped keep their value.
    pub fn add_region(&mut self, base: u64, bytes: Vec<u8>)
        ensures
            final(self).pid == old(self).pid,
            final(self).module_base == old(self).module_base,
            final(self).regions@ == old(self).regions@.push(MemoryRegion { base, bytes }),
    {
        self.regions.push(MemoryRegion { base, bytes });
    }

    /// The byte at `base + off`.
    pub fn read_u8(&self, base: u64, off: u64) -> (r: u8)
        ensures
            r == self.byte(base + off),
    {
        let a = match base.checked_add(off) {
            Some(a) => a,
            None => {
                proof {
                    Self::lemma_beyond(self.regions@, 0, base + off);
                }
                return 0;
            },
        };
        let mut i: usize = 0;
        while i < self.regions.len()
            invariant
                0 <= i <= self.regions@.len(),
                a == base + off,
                byte_from(self.regions@, 0, a as int) == byte_from(self.regions@, i as int, a as int),
            decreases self.regions@.len() - i,
        {
            let r = &self.regions[i];
            if r.base <= a && a - r.base < r.bytes.len() as u64 {
                return r.bytes[(a - r.base) as usize];
            }
            i = i + 1;
        }
        0
    }

    proof fn lemma_beyond(regions: Seq<MemoryRegion>, i: int, a: int)
        requires
            a > u64::MAX,
            0 <= i,
        ensures
            byte_from(regions, i, a) == 0,
        decreases regions.len() - i,
    {
        if i < regions.len() {
            Self::lemma_beyond(regions, i + 1, a);
        }
    }

    /// Nothing is mapped above the largest address.
    pub proof fn lemma_high_zero(&self, a: int, n: int)
        requires
            a > u64::MAX,
            n >= 0,
        ensures
            self.bytes(a, n) =~= Seq::new(n as nat, |k: int| 0u8),
            n == 2 ==> self.u16_at(a) == 0 && self.i16_at(a) == 0,
            n == 4 ==> self.u32_at(a) == 0 && self.i32_at(a) == 0,
            n == 8 ==> self.u64_at(a) == 0,
    {
        assert forall|k: int| 0 <= k < n implies #[trigger] self.byte(a + k) == 0 by {
            Self::lemma_beyond(self.regions@, 0, a + k);
        }
        if n == 8 {
            assert(self.bytes(a, 8).subrange(0, 4) =~= Seq::new(4, |k: int| 0u8));
            assert(self.bytes(a, 8).subrange(4, 8) =~= Seq::new(4, |k: int| 0u8));
        }
    }

    /// `n` bytes from `base + off` on.
    pub fn read_bytes(&self, base: u64, off: u64, n: u64) -> (r: Vec<u8>)
        ensures
            r@ == self.bytes(base + off, n as int),
    {
        let mut out: Vec<u8> = Vec::new();
        let mut k: u64 = 0;
        while k < n
            invariant
                k <= n,
                out@ == self.bytes(base + off, k as int),
            decreases n - k,
        {
            let b = match off.checked_add(k) {
                Some(o) => self.read_u8(base, o),
                None => {
                    proof {
                        Self::lemma_beyond(self.regions@, 0, base + off + k);
                    }
                    0
                },
            };
            out.push(b);
            k = k + 1;
            assert(out@ =~= self.bytes(base + off, k as int));
        }
        out
    }

    pub fn read_u16(&self, base: u64, off: u64) -> (r: u16)
        ensures
            r as int == self.u16_at(base + off),
    {
        let b = self.read_bytes(base, off, 2);
        b[0] as u16 + 256 * (b[1] as u16)
    }

    pub fn read_i16(&self, base: u64, off: u64) -> (r: i16)
        ensures
            r as int == self.i16_at(base + off),
    {
        let v = self.read_u16(base, off);
        if v < 0x8000 {
            v as i16
        } else {
            -32768i16 + ((v - 0x8000) as i16)
        }
    }

    pub fn read_u32(&self, base: u64, off: u64) -> (r: u32)
        ensures
            r as int == self.u32_at(base + off),
    {
        let b = self.read_bytes(base, off, 4);
        b[0] as u32 + 256 * (b[1] as u32) + 65536 * (b[2] as u32) + 16777216 * (b[3] as u32)
    }

    pub fn read_i32(&self, base: u64, off: u64) -> (r: i32)
        ensures
            r as int == self.i32_at(base + off),
    {
        let v = self.read_u32(base, off);
        if v < 0x8000_0000 {
            v as i32
        } else {
            -2147483648i32 + ((v - 0x8000_0000) as i32)
        }
    }

    pub fn read_u64(&self, base: u64, off: u64) -> (r: u64)
        ensures
            r as int == self.u64_at(base + off),
    {
        let b = self.read_bytes(base, off, 8);
        let lo = b[0] as u64 + 256 * (b[1] as u64) + 65536 * (b[2] as u64) + 16777216 * (
        b[3] as u64);
        let hi = b[4] as u64 + 256 * (b[5] as u64) + 65536 * (b[6] as u64) + 16777216 * (
        b[7] as u64);
        assert(lo as int == le_u32(b@.subrange(0, 4)));
        assert(hi as int == le_u32(b@.subrange(4, 8)));
        lo + 4294967296 * hi
    }
}

impl ProcessMemory {
    /// Bounds of the dynamic array whose header is at `base + off`.
    fn vector_bounds(&self, base: u64, off: u64) -> (r: (u64, u64))
        ensures
            r.0 as int == self.vec_start(base + off),
            r.1 as int == self.vec_end(base + off),
    {
        match base.checked_add(off) {
            Some(a) => (self.read_u64(a, 0), self.read_u64(a, POINTER_SIZE)),
            None => {
                proof {
                    self.lemma_high_zero(base + off, 8);
                    self.lemma_high_zero(base + off + POINTER_SIZE, 8);
                }
                (0, 0)
            },
        }
    }

    /// The elements, `width` bytes each, of the dynamic array whose header
    /// is at `base + off`. Reversed bounds, a zero width or an absurd span
    /// give no elements, and no byte at or past the end pointer is read.
    pub fn read_vector(&self, base: u64, off: u64, width: u64) -> (r: Vec<Vec<u8>>)
        ensures
            r@.len() == self.vec_len(base + off, width as int),
            forall|k: int|
                0 <= k < r@.len() ==> (#[trigger] r@[k])@ == self.bytes(
                    self.vec_start(base + off) + k * width,
                    width as int,
                ),
    {
        let (start, end) = self.vector_bounds(base, off);
        if end < start || width == 0 || end - start > MAX_VECTOR_BYTES {
            return Vec::new();
        }
        let count = (end - start) / width;
        let mut out: Vec<Vec<u8>> = Vec::new();
        let mut k: u64 = 0;
        while k < count
            invariant
                k <= count,
                count as int == (end - start) as int / width as int,
                width > 0,
                start <= end,
                end - start <= MAX_VECTOR_BYTES,
                out@.len() == k,
                forall|j: int|
                    0 <= j < k ==> (#[trigger] out@[j])@ == self.bytes(start + j * width, width as int),
            decreases count - k,
        {
            assert(k * width <= end - start) by (nonlinear_arith)
                requires
                    k < count,
                    count as int == (end - start) as int / width as int,
                    width > 0,
            ;
            out.push(self.read_bytes(start, k * width, width));
            k = k + 1;
        }
        out
    }

    /// The pointers held by the pointer array whose header is at `base + off`.
    pub fn read_pointer_vector(&self, base: u64, off: u64) -> (r: Vec<u64>)
        ensures
            r@.len() == self.vec_len(base + off, POINTER_SIZE as int),
            forall|k: int| 0 <= k < r@.len() ==> (#[trigger] r@[k]) as int == self.vec_ptr(base + off, k),
    {
        let (start, end) = self.vector_bounds(base, off);
        if end < start || end - start > MAX_VECTOR_BYTES {
            return Vec::new();
        }
        let count = (end - start) / POINTER_SIZE;
        let mut out: Vec<u64> = Vec::new();
        let mut k: u64 = 0;
        while k < count
            invariant
                k <= count,
                count as int == (end - start) as int / POINTER_SIZE as int,
                start as int == self.vec_start(base + off),
                start <= end,
                end - start <= MAX_VECTOR_BYTES,
                out@.len() == k,
                forall|j: int| 0 <= j < k ==> (#[trigger] out@[j]) as int == self.vec_ptr(base + off, j),
            decreases count - k,
        {
            out.push(self.read_u64(start, POINTER_SIZE * k));
            k = k + 1;
        }
        out
    }
}

/// The dynamic-array count is `(end - start) / width` for ordered bounds,
/// so that `count * width` bytes from the start never pass the end, and is
/// zero for reversed bounds.
pub proof fn lemma_vector_count(mem: &ProcessMemory, a: int, width: int)
    requires
        width > 0,
    ensures
        mem.vec_start(a) <= mem.vec_end(a) && mem.vec_end(a) - mem.vec_start(a) <= MAX_VECTOR_BYTES
            ==> mem.vec_len(a, width) == (mem.vec_end(a) - mem.vec_start(a)) / width
            && mem.vec_start(a) + mem.vec_len(a, width) * width <= mem.vec_end(a),
        mem.vec_end(a) < mem.vec_start(a) ==> mem.vec_len(a, width) == 0,
{
    let d = mem.vec_end(a) - mem.vec_start(a);
    if d >= 0 {
        assert((d / width) * width <= d) by (nonlinear_arith)
            requires
                d >= 0,
                width > 0,
        ;
    }
}

} // verus!
