use vstd::prelude::*;
use vstd::bytes::{
    spec_u16_from_le_bytes, spec_u16_to_le_bytes, spec_u32_from_le_bytes, spec_u32_to_le_bytes,
    spec_u64_from_le_bytes, spec_u64_to_le_bytes, lemma_auto_spec_u16_to_from_le_bytes,
    lemma_auto_spec_u32_to_from_le_bytes, lemma_auto_spec_u64_to_from_le_bytes, u16_from_le_bytes,
    u16_to_le_bytes, u32_from_le_bytes, u32_to_le_bytes, u64_from_le_bytes, u64_to_le_bytes,
};
use vstd::slice::slice_subrange;

verus! {

// An in-memory byte store with the same typed read/write/copy surface as an
// accessor over a mapped region. It is the reference model for what those
// operations mean, and a backing stand-in a test can run them against.
//
// Multi-byte values are laid out little-endian, the byte order of the
// platforms this library targets.
/// Replace `data.len()` bytes of `mem` starting at `offset`.
pub open spec fn spec_store_bytes(mem: Seq<u8>, offset: int, data: Seq<u8>) -> Seq<u8> {
    mem.subrange(0, offset) + data + mem.subrange(offset + data.len(), mem.len() as int)
}

pub open spec fn spec_load_u8(mem: Seq<u8>, offset: int) -> u8 {
    mem[offset]
}

pub open spec fn spec_load_u16(mem: Seq<u8>, offset: int) -> u16 {
    spec_u16_from_le_bytes(mem.subrange(offset, offset + 2))
}

pub open spec fn spec_load_u32(mem: Seq<u8>, offset: int) -> u32 {
    spec_u32_from_le_bytes(mem.subrange(offset, offset + 4))
}

pub open spec fn spec_load_u64(mem: Seq<u8>, offset: int) -> u64 {
    spec_u64_from_le_bytes(mem.subrange(offset, offset + 8))
}

pub open spec fn spec_store_u8(mem: Seq<u8>, offset: int, data: u8) -> Seq<u8> {
    spec_store_bytes(mem, offset, seq![data])
}

pub open spec fn spec_store_u16(mem: Seq<u8>, offset: int, data: u16) -> Seq<u8> {
    spec_store_bytes(mem, offset, spec_u16_to_le_bytes(data))
}

pub open spec fn spec_store_u32(mem: Seq<u8>, offset: int, data: u32) -> Seq<u8> {
    spec_store_bytes(mem, offset, spec_u32_to_le_bytes(data))
}

pub open spec fn spec_store_u64(mem: Seq<u8>, offset: int, data: u64) -> Seq<u8> {
    spec_store_bytes(mem, offset, spec_u64_to_le_bytes(data))
}

/// The native word: the platform's `usize`, 8 or 4 bytes wide, read and
/// written through the same little-endian byte model as the fixed widths.
pub open spec fn spec_load_usize(mem: Seq<u8>, offset: int) -> usize {
    if usize::BITS == 64 {
        spec_load_u64(mem, offset) as usize
    } else {
        spec_load_u32(mem, offset) as usize
    }
}

pub open spec fn spec_store_usize(mem: Seq<u8>, offset: int, data: usize) -> Seq<u8> {
    if usize::BITS == 64 {
        spec_store_u64(mem, offset, data as u64)
    } else {
        spec_store_u32(mem, offset, data as u32)
    }
}

/// Storing `n` bytes at `offset` keeps the length and touches nothing
/// outside `[offset, offset + n)`.
pub proof fn lemma_store_bytes_frame(mem: Seq<u8>, offset: int, data: Seq<u8>)
    requires
        0 <= offset,
        offset + data.len() <= mem.len(),
    ensures
        spec_store_bytes(mem, offset, data).len() == mem.len(),
        forall|j: int|
            0 <= j < mem.len() && !(offset <= j < offset + data.len())
                ==> spec_store_bytes(mem, offset, data)[j] == mem[j],
        forall|j: int|
            0 <= j < data.len() ==> spec_store_bytes(mem, offset, data)[offset + j] == data[j],
{
}

/// A byte store standing in for a mapped memory region.
pub struct MemBuffer {
    pub bytes: Vec<u8>,
}

impl View for MemBuffer {
    type V = Seq<u8>;

    open spec fn view(&self) -> Seq<u8> {
        self.bytes@
    }
}

/// The view of a vector is never longer than `usize::MAX`.
proof fn lemma_bytes_len_fits(b: &Vec<u8>)
    ensures
        b@.len() <= usize::MAX,
{
    broadcast use vstd::std_specs::vec::axiom_spec_len;

    assert(vstd::std_specs::vec::spec_vec_len(b) == b@.len());
}

impl MemBuffer {
    /// A store of `size` zeroed bytes.
    pub fn new(size: usize) -> (r: Self)
        ensures
            r@.len() == size,
            forall|i: int| 0 <= i < size ==> r@[i] == 0u8,
    {
        MemBuffer { bytes: vec![0u8; size] }
    }

    pub fn size(&self) -> (r: usize)
        ensures
            r == self@.len(),
    {
        self.bytes.len()
    }

    pub fn read_mem_u8(&self, offset: usize) -> (r: u8)
        requires
            offset < self@.len(),
        ensures
            r == spec_load_u8(self@, offset as int),
    {
        self.bytes[offset]
    }

    pub fn read_mem_u16(&self, offset: usize) -> (r: u16)
        requires
            offset + 2 <= self@.len(),
        ensures
            r == spec_load_u16(self@, offset as int),
    {
        proof {
            lemma_bytes_len_fits(&self.bytes);
        }
        let s = slice_subrange(self.bytes.as_slice(), offset, offset + 2);
        u16_from_le_bytes(s)
    }

    pub fn read_mem_u32(&self, offset: usize) -> (r: u32)
        requires
            offset + 4 <= self@.len(),
        ensures
            r == spec_load_u32(self@, offset as int),
    {
        proof {
            lemma_bytes_len_fits(&self.bytes);
        }
        let s = slice_subrange(self.bytes.as_slice(), offset, offset + 4);
        u32_from_le_bytes(s)
    }

    pub fn read_mem_u64(&self, offset: usize) -> (r: u64)
        requires
            offset + 8 <= self@.len(),
        ensures
            r == spec_load_u64(self@, offset as int),
    {
        proof {
            lemma_bytes_len_fits(&self.bytes);
        }
        let s = slice_subrange(self.bytes.as_slice(), offset, offset + 8);
        u64_from_le_bytes(s)
    }

    pub fn write_mem_u8(&mut self, offset: usize, data: u8)
        requires
            offset < old(self)@.len(),
        ensures
            final(self)@ == spec_store_u8(old(self)@, offset as int, data),
    {
        self.bytes[offset] = data;
        proof {
            assert(self@ =~= spec_store_u8(old(self)@, offset as int, data));
        }
    }

    pub fn write_mem_u16(&mut self, offset: usize, data: u16)
        requires
            offset + 2 <= old(self)@.len(),
        ensures
            final(self)@ == spec_store_u16(old(self)@, offset as int, data),
    {
        proof {
            lemma_bytes_len_fits(&self.bytes);
        }
        let b = u16_to_le_bytes(data);
        self.bytes[offset] = b[0];
        self.bytes[offset + 1] = b[1];
        proof {
            lemma_auto_spec_u16_to_from_le_bytes();
            assert(self@ =~= spec_store_u16(old(self)@, offset as int, data));
        }
    }

    pub fn write_mem_u32(&mut self, offset: usize, data: u32)
        requires
            offset + 4 <= old(self)@.len(),
        ensures
            final(self)@ == spec_store_u32(old(self)@, offset as int, data),
    {
        proof {
            lemma_bytes_len_fits(&self.bytes);
        }
        let b = u32_to_le_bytes(data);
        self.bytes[offset] = b[0];
        self.bytes[offset + 1] = b[1];
        self.bytes[offset + 2] = b[2];
        self.bytes[offset + 3] = b[3];
        proof {
            lemma_auto_spec_u32_to_from_le_bytes();
            assert(self@ =~= spec_store_u32(old(self)@, offset as int, data));
        }
    }

    pub fn write_mem_u64(&mut self, offset: usize, data: u64)
        requires
            offset + 8 <= old(self)@.len(),
        ensures
            final(self)@ == spec_store_u64(old(self)@, offset as int, data),
    {
        proof {
            lemma_bytes_len_fits(&self.bytes);
        }
        let b = u64_to_le_bytes(data);
        self.bytes[offset] = b[0];
        self.bytes[offset + 1] = b[1];
        self.bytes[offset + 2] = b[2];
        self.bytes[offset + 3] = b[3];
        self.bytes[offset + 4] = b[4];
        self.bytes[offset + 5] = b[5];
        self.bytes[offset + 6] = b[6];
        self.bytes[offset + 7] = b[7];
        proof {
            lemma_auto_spec_u64_to_from_le_bytes();
            assert(self@ =~= spec_store_u64(old(self)@, offset as int, data));
        }
    }

    pub fn read_reg_u8(&self, reg: usize) -> (r: u8)
        requires
            reg < self@.len(),
        ensures
            r == spec_load_u8(self@, reg as int),
    {
        self.read_mem_u8(reg)
    }

    pub fn read_reg_u16(&self, reg: usize) -> (r: u16)
        requires
            2 * reg + 2 <= self@.len(),
        ensures
            r == spec_load_u16(self@, 2 * reg as int),
    {
        proof {
            lemma_bytes_len_fits(&self.bytes);
        }
        self.read_mem_u16(reg * 2)
    }

    pub fn read_reg_u32(&self, reg: usize) -> (r: u32)
        requires
            4 * reg + 4 <= self@.len(),
        ensures
            r == spec_load_u32(self@, 4 * reg as int),
    {
        proof {
            lemma_bytes_len_fits(&self.bytes);
        }
        self.read_mem_u32(reg * 4)
    }

    pub fn read_reg_u64(&self, reg: usize) -> (r: u64)
        requires
            8 * reg + 8 <= self@.len(),
        ensures
            r == spec_load_u64(self@, 8 * reg as int),
    {
        proof {
            lemma_bytes_len_fits(&self.bytes);
        }
        self.read_mem_u64(reg * 8)
    }

    pub fn write_reg_u8(&mut self, reg: usize, data: u8)
        requires
            reg < old(self)@.len(),
        ensures
            final(self)@ == spec_store_u8(old(self)@, reg as int, data),
    {
        self.write_mem_u8(reg, data)
    }

    pub fn write_reg_u16(&mut self, reg: usize, data: u16)
        requires
            2 * reg + 2 <= old(self)@.len(),
        ensures
            final(self)@ == spec_store_u16(old(self)@, 2 * reg as int, data),
    {
        proof {
            lemma_bytes_len_fits(&self.bytes);
        }
        self.write_mem_u16(reg * 2, data)
    }

    pub fn write_reg_u32(&mut self, reg: usize, data: u32)
        requires
            4 * reg + 4 <= old(self)@.len(),
        ensures
            final(self)@ == spec_store_u32(old(self)@, 4 * reg as int, data),
    {
        proof {
            lemma_bytes_len_fits(&self.bytes);
        }
        self.write_mem_u32(reg * 4, data)
    }

    pub fn write_reg_u64(&mut self, reg: usize, data: u64)
        requires
            8 * reg + 8 <= old(self)@.len(),
        ensures
            final(self)@ == spec_store_u64(old(self)@, 8 * reg as int, data),
    {
        proof {
            lemma_bytes_len_fits(&self.bytes);
        }
        self.write_mem_u64(reg * 8, data)
    }

    pub fn read_mem_i8(&self, offset: usize) -> (r: i8)
        requires
            offset < self@.len(),
        ensures
            r == spec_load_u8(self@, offset as int) as i8,
    {
        self.read_mem_u8(offset) as i8
    }

    pub fn read_mem_i16(&self, offset: usize) -> (r: i16)
        requires
            offset + 2 <= self@.len(),
        ensures
            r == spec_load_u16(self@, offset as int) as i16,
    {
        self.read_mem_u16(offset) as i16
    }

    pub fn read_mem_i32(&self, offset: usize) -> (r: i32)
        requires
            offset + 4 <= self@.len(),
        ensures
            r == spec_load_u32(self@, offset as int) as i32,
    {
        self.read_mem_u32(offset) as i32
    }

    pub fn read_mem_i64(&self, offset: usize) -> (r: i64)
        requires
            offset + 8 <= self@.len(),
        ensures
            r == spec_load_u64(self@, offset as int) as i64,
    {
        self.read_mem_u64(offset) as i64
    }

    pub fn write_mem_i8(&mut self, offset: usize, data: i8)
        requires
            offset < old(self)@.len(),
        ensures
            final(self)@ == spec_store_u8(old(self)@, offset as int, data as u8),
    {
        self.write_mem_u8(offset, data as u8)
    }

    pub fn write_mem_i16(&mut self, offset: usize, data: i16)
        requires
            offset + 2 <= old(self)@.len(),
        ensures
            final(self)@ == spec_store_u16(old(self)@, offset as int, data as u16),
    {
        self.write_mem_u16(offset, data as u16)
    }

    pub fn write_mem_i32(&mut self, offset: usize, data: i32)
        requires
            offset + 4 <= old(self)@.len(),
        ensures
            final(self)@ == spec_store_u32(old(self)@, offset as int, data as u32),
    {
        self.write_mem_u32(offset, data as u32)
    }

    pub fn write_mem_i64(&mut self, offset: usize, data: i64)
        requires
            offset + 8 <= old(self)@.len(),
        ensures
            final(self)@ == spec_store_u64(old(self)@, offset as int, data as u64),
    {
        self.write_mem_u64(offset, data as u64)
    }

    pub fn read_reg_i8(&self, reg: usize) -> (r: i8)
        requires
            reg < self@.len(),
        ensures
            r == spec_load_u8(self@, reg as int) as i8,
    {
        self.read_mem_i8(reg)
    }

    pub fn read_reg_i16(&self, reg: usize) -> (r: i16)
        requires
            2 * reg + 2 <= self@.len(),
        ensures
            r == spec_load_u16(self@, 2 * reg as int) as i16,
    {
        proof {
            lemma_bytes_len_fits(&self.bytes);
        }
        self.read_mem_i16(reg * 2)
    }

    pub fn read_reg_i32(&self, reg: usize) -> (r: i32)
        requires
            4 * reg + 4 <= self@.len(),
        ensures
            r == spec_load_u32(self@, 4 * reg as int) as i32,
    {
        proof {
            lemma_bytes_len_fits(&self.bytes);
        }
        self.read_mem_i32(reg * 4)
    }

    pub fn read_reg_i64(&self, reg: usize) -> (r: i64)
        requires
            8 * reg + 8 <= self@.len(),
        ensures
            r == spec_load_u64(self@, 8 * reg as int) as i64,
    {
        proof {
            lemma_bytes_len_fits(&self.bytes);
        }
        self.read_mem_i64(reg * 8)
    }

    pub fn write_reg_i8(&mut self, reg: usize, data: i8)
        requires
            reg < old(self)@.len(),
        ensures
            final(self)@ == spec_store_u8(old(self)@, reg as int, data as u8),
    {
        self.write_mem_i8(reg, data)
    }

    pub fn write_reg_i16(&mut self, reg: usize, data: i16)
        requires
            2 * reg + 2 <= old(self)@.len(),
        ensures
            final(self)@ == spec_store_u16(old(self)@, 2 * reg as int, data as u16),
    {
        proof {
            lemma_bytes_len_fits(&self.bytes);
        }
        self.write_mem_i16(reg * 2, data)
    }

    pub fn write_reg_i32(&mut self, reg: usize, data: i32)
        requires
            4 * reg + 4 <= old(self)@.len(),
        ensures
            final(self)@ == spec_store_u32(old(self)@, 4 * reg as int, data as u32),
    {
        proof {
            lemma_bytes_len_fits(&self.bytes);
        }
        self.write_mem_i32(reg * 4, data)
    }

    pub fn write_reg_i64(&mut self, reg: usize, data: i64)
        requires
            8 * reg + 8 <= old(self)@.len(),
        ensures
            final(self)@ == spec_store_u64(old(self)@, 8 * reg as int, data as u64),
    {
        proof {
            lemma_bytes_len_fits(&self.bytes);
        }
        self.write_mem_i64(reg * 8, data)
    }


    pub fn read_mem_usize(&self, offset: usize) -> (r: usize)
        requires
            offset + usize::BITS / 8 <= self@.len(),
        ensures
            r == spec_load_usize(self@, offset as int),
    {
        if usize::BITS == 64 {
            self.read_mem_u64(offset) as usize
        } else {
            self.read_mem_u32(offset) as usize
        }
    }

    pub fn write_mem_usize(&mut self, offset: usize, data: usize)
        requires
            offset + usize::BITS / 8 <= old(self)@.len(),
        ensures
            final(self)@ == spec_store_usize(old(self)@, offset as int, data),
    {
        if usize::BITS == 64 {
            self.write_mem_u64(offset, data as u64)
        } else {
            self.write_mem_u32(offset, data as u32)
        }
    }

    pub fn read_reg_usize(&self, reg: usize) -> (r: usize)
        requires
            (usize::BITS / 8) * reg + usize::BITS / 8 <= self@.len(),
        ensures
            r == spec_load_usize(self@, (usize::BITS / 8) * reg as int),
    {
        if usize::BITS == 64 {
            self.read_reg_u64(reg) as usize
        } else {
            self.read_reg_u32(reg) as usize
        }
    }

    pub fn write_reg_usize(&mut self, reg: usize, data: usize)
        requires
            (usize::BITS / 8) * reg + usize::BITS / 8 <= old(self)@.len(),
        ensures
            final(self)@ == spec_store_usize(old(self)@, (usize::BITS / 8) * reg as int, data),
    {
        if usize::BITS == 64 {
            self.write_reg_u64(reg, data as u64)
        } else {
            self.write_reg_u32(reg, data as u32)
        }
    }

    pub fn read_mem_isize(&self, offset: usize) -> (r: isize)
        requires
            offset + usize::BITS / 8 <= self@.len(),
        ensures
            r == spec_load_usize(self@, offset as int) as isize,
    {
        self.read_mem_usize(offset) as isize
    }

    pub fn write_mem_isize(&mut self, offset: usize, data: isize)
        requires
            offset + usize::BITS / 8 <= old(self)@.len(),
        ensures
            final(self)@ == spec_store_usize(old(self)@, offset as int, data as usize),
    {
        self.write_mem_usize(offset, data as usize)
    }

    pub fn read_reg_isize(&self, reg: usize) -> (r: isize)
        requires
            (usize::BITS / 8) * reg + usize::BITS / 8 <= self@.len(),
        ensures
            r == spec_load_usize(self@, (usize::BITS / 8) * reg as int) as isize,
    {
        self.read_reg_usize(reg) as isize
    }

    pub fn write_reg_isize(&mut self, reg: usize, data: isize)
        requires
            (usize::BITS / 8) * reg + usize::BITS / 8 <= old(self)@.len(),
        ensures
            final(self)@ == spec_store_usize(old(self)@, (usize::BITS / 8) * reg as int, data as usize),
    {
        self.write_reg_usize(reg, data as usize)
    }

    /// The unsuffixed forms are the native-width ones.
    pub fn read_mem(&self, offset: usize) -> (r: usize)
        requires
            offset + usize::BITS / 8 <= self@.len(),
        ensures
            r == spec_load_usize(self@, offset as int),
    {
        self.read_mem_usize(offset)
    }

    pub fn write_mem(&mut self, offset: usize, data: usize)
        requires
            offset + usize::BITS / 8 <= old(self)@.len(),
        ensures
            final(self)@ == spec_store_usize(old(self)@, offset as int, data),
    {
        self.write_mem_usize(offset, data)
    }

    pub fn read_reg(&self, reg: usize) -> (r: usize)
        requires
            (usize::BITS / 8) * reg + usize::BITS / 8 <= self@.len(),
        ensures
            r == spec_load_usize(self@, (usize::BITS / 8) * reg as int),
    {
        self.read_reg_usize(reg)
    }

    pub fn write_reg(&mut self, reg: usize, data: usize)
        requires
            (usize::BITS / 8) * reg + usize::BITS / 8 <= old(self)@.len(),
        ensures
            final(self)@ == spec_store_usize(old(self)@, (usize::BITS / 8) * reg as int, data),
    {
        self.write_reg_usize(reg, data)
    }

    /// Copy `count` bytes out of the store, starting at `src_adr`.
    pub fn copy_to_u8(&self, src_adr: usize, count: usize) -> (r: Vec<u8>)
        requires
            src_adr + count <= self@.len(),
        ensures
            r@ == self@.subrange(src_adr as int, src_adr + count),
    {
        proof {
            lemma_bytes_len_fits(&self.bytes);
        }
        let mut out: Vec<u8> = Vec::new();
        let mut k: usize = 0;
        while k < count
            invariant
                k <= count,
                src_adr + count <= self@.len(),
                self@.len() <= usize::MAX,
                out@ =~= self@.subrange(src_adr as int, src_adr + k),
            decreases count - k,
        {
            out.push(self.bytes[src_adr + k]);
            k = k + 1;
        }
        proof {
            assert(out@ =~= self@.subrange(src_adr as int, src_adr + count));
        }
        out
    }

    /// Copy `count` bytes of `src` into the store, starting at `dst_adr`.
    pub fn copy_from_u8(&mut self, src: &[u8], dst_adr: usize, count: usize)
        requires
            count <= src@.len(),
            dst_adr + count <= old(self)@.len(),
        ensures
            final(self)@ == spec_store_bytes(old(self)@, dst_adr as int, src@.subrange(0, count as int)),
    {
        proof {
            lemma_bytes_len_fits(&self.bytes);
        }
        let mut k: usize = 0;
        while k < count
            invariant
                k <= count,
                count <= src@.len(),
                dst_adr + count <= old(self)@.len(),
                self@.len() == old(self)@.len(),
                self@.len() <= usize::MAX,
                self@ =~= spec_store_bytes(old(self)@, dst_adr as int, src@.subrange(0, k as int)),
            decreases count - k,
        {
            let v = src[k];
            self.bytes[dst_adr + k] = v;
            proof {
                assert(self@ =~= spec_store_bytes(
                    old(self)@,
                    dst_adr as int,
                    src@.subrange(0, k + 1),
                ));
            }
            k = k + 1;
        }
    }

    /// Copy `count` 32-bit words out of the store, starting at byte `src_adr`.
    pub fn copy_to_u32(&self, src_adr: usize, count: usize) -> (r: Vec<u32>)
        requires
            src_adr + 4 * count <= self@.len(),
        ensures
            r@.len() == count,
            forall|i: int|
                0 <= i < count ==> r@[i] == spec_load_u32(self@, src_adr + 4 * i),
    {
        proof {
            lemma_bytes_len_fits(&self.bytes);
        }
        let mut out: Vec<u32> = Vec::new();
        let mut k: usize = 0;
        while k < count
            invariant
                k <= count,
                src_adr + 4 * count <= self@.len(),
                self@.len() <= usize::MAX,
                out@.len() == k,
                forall|i: int|
                    0 <= i < k ==> out@[i] == spec_load_u32(self@, src_adr + 4 * i),
            decreases count - k,
        {
            out.push(self.read_mem_u32(src_adr + 4 * k));
            k = k + 1;
        }
        out
    }

    /// Copy `count` 32-bit words of `src` into the store, starting at byte
    /// `dst_adr`.
    pub fn copy_from_u32(&mut self, src: &[u32], dst_adr: usize, count: usize)
        requires
            count <= src@.len(),
            dst_adr + 4 * count <= old(self)@.len(),
        ensures
            final(self)@.len() == old(self)@.len(),
            forall|j: int|
                0 <= j < old(self)@.len() && !(dst_adr <= j < dst_adr + 4 * count)
                    ==> final(self)@[j] == old(self)@[j],
            forall|i: int|
                0 <= i < count
                    ==> spec_load_u32(final(self)@, dst_adr + 4 * i) == src@[i],
    {
        proof {
            lemma_bytes_len_fits(&self.bytes);
        }
        let mut k: usize = 0;
        while k < count
            invariant
                k <= count,
                count <= src@.len(),
                dst_adr + 4 * count <= old(self)@.len(),
                self@.len() == old(self)@.len(),
                self@.len() <= usize::MAX,
                forall|j: int|
                    0 <= j < old(self)@.len() && !(dst_adr <= j < dst_adr + 4 * k)
                        ==> self@[j] == old(self)@[j],
                forall|i: int|
                    0 <= i < k ==> spec_load_u32(self@, dst_adr + 4 * i) == src@[i],
            decreases count - k,
        {
            let ghost prev = self@;
            let v = src[k];
            self.write_mem_u32(dst_adr + 4 * k, v);
            proof {
                lemma_auto_spec_u32_to_from_le_bytes();
                lemma_store_bytes_frame(prev, dst_adr + 4 * k, spec_u32_to_le_bytes(v));
                assert forall|i: int| 0 <= i < k + 1 implies spec_load_u32(
                    self@,
                    dst_adr + 4 * i,
                ) == src@[i] by {
                    if i < k {
                        assert(self@.subrange(dst_adr + 4 * i, dst_adr + 4 * i + 4) =~= prev
                            .subrange(dst_adr + 4 * i, dst_adr + 4 * i + 4));
                    } else {
                        assert(self@.subrange(dst_adr + 4 * i, dst_adr + 4 * i + 4)
                            =~= spec_u32_to_le_bytes(v));
                    }
                }
            }
            k = k + 1;
        }
    }

    /// Copy `count` 16-bit words out of the store, starting at byte `src_adr`.
    pub fn copy_to_u16(&self, src_adr: usize, count: usize) -> (r: Vec<u16>)
        requires
            src_adr + 2 * count <= self@.len(),
        ensures
            r@.len() == count,
            forall|i: int|
                0 <= i < count ==> r@[i] == spec_load_u16(self@, src_adr + 2 * i),
    {
        proof {
            lemma_bytes_len_fits(&self.bytes);
        }
        let mut out: Vec<u16> = Vec::new();
        let mut k: usize = 0;
        while k < count
            invariant
                k <= count,
                src_adr + 2 * count <= self@.len(),
                self@.len() <= usize::MAX,
                out@.len() == k,
                forall|i: int|
                    0 <= i < k ==> out@[i] == spec_load_u16(self@, src_adr + 2 * i),
            decreases count - k,
        {
            out.push(self.read_mem_u16(src_adr + 2 * k));
            k = k + 1;
        }
        out
    }

    /// Copy `count` 16-bit words of `src` into the store, starting at byte
    /// `dst_adr`.
    pub fn copy_from_u16(&mut self, src: &[u16], dst_adr: usize, count: usize)
        requires
            count <= src@.len(),
            dst_adr + 2 * count <= old(self)@.len(),
        ensures
            final(self)@.len() == old(self)@.len(),
            forall|j: int|
                0 <= j < old(self)@.len() && !(dst_adr <= j < dst_adr + 2 * count)
                    ==> final(self)@[j] == old(self)@[j],
            forall|i: int|
                0 <= i < count
                    ==> spec_load_u16(final(self)@, dst_adr + 2 * i) == src@[i],
    {
        proof {
            lemma_bytes_len_fits(&self.bytes);
        }
        let mut k: usize = 0;
        while k < count
            invariant
                k <= count,
                count <= src@.len(),
                dst_adr + 2 * count <= old(self)@.len(),
                self@.len() == old(self)@.len(),
                self@.len() <= usize::MAX,
                forall|j: int|
                    0 <= j < old(self)@.len() && !(dst_adr <= j < dst_adr + 2 * k)
                        ==> self@[j] == old(self)@[j],
                forall|i: int|
                    0 <= i < k ==> spec_load_u16(self@, dst_adr + 2 * i) == src@[i],
            decreases count - k,
        {
            let ghost prev = self@;
            let v = src[k];
            self.write_mem_u16(dst_adr + 2 * k, v);
            proof {
                lemma_auto_spec_u16_to_from_le_bytes();
                lemma_store_bytes_frame(prev, dst_adr + 2 * k, spec_u16_to_le_bytes(v));
                assert forall|i: int| 0 <= i < k + 1 implies spec_load_u16(
                    self@,
                    dst_adr + 2 * i,
                ) == src@[i] by {
                    if i < k {
                        assert(self@.subrange(dst_adr + 2 * i, dst_adr + 2 * i + 2) =~= prev
                            .subrange(dst_adr + 2 * i, dst_adr + 2 * i + 2));
                    } else {
                        assert(self@.subrange(dst_adr + 2 * i, dst_adr + 2 * i + 2)
                            =~= spec_u16_to_le_bytes(v));
                    }
                }
            }
            k = k + 1;
        }
    }

    /// Copy `count` 64-bit words out of the store, starting at byte `src_adr`.
    pub fn copy_to_u64(&self, src_adr: usize, count: usize) -> (r: Vec<u64>)
        requires
            src_adr + 8 * count <= self@.len(),
        ensures
            r@.len() == count,
            forall|i: int|
                0 <= i < count ==> r@[i] == spec_load_u64(self@, src_adr + 8 * i),
    {
        proof {
            lemma_bytes_len_fits(&self.bytes);
        }
        let mut out: Vec<u64> = Vec::new();
        let mut k: usize = 0;
        while k < count
            invariant
                k <= count,
                src_adr + 8 * count <= self@.len(),
                self@.len() <= usize::MAX,
                out@.len() == k,
                forall|i: int|
                    0 <= i < k ==> out@[i] == spec_load_u64(self@, src_adr + 8 * i),
            decreases count - k,
        {
            out.push(self.read_mem_u64(src_adr + 8 * k));
            k = k + 1;
        }
        out
    }

    /// Copy `count` 64-bit words of `src` into the store, starting at byte
    /// `dst_adr`.
    pub fn copy_from_u64(&mut self, src: &[u64], dst_adr: usize, count: usize)
        requires
            count <= src@.len(),
            dst_adr + 8 * count <= old(self)@.len(),
        ensures
            final(self)@.len() == old(self)@.len(),
            forall|j: int|
                0 <= j < old(self)@.len() && !(dst_adr <= j < dst_adr + 8 * count)
                    ==> final(self)@[j] == old(self)@[j],
            forall|i: int|
                0 <= i < count
                    ==> spec_load_u64(final(self)@, dst_adr + 8 * i) == src@[i],
    {
        proof {
            lemma_bytes_len_fits(&self.bytes);
        }
        let mut k: usize = 0;
        while k < count
            invariant
                k <= count,
                count <= src@.len(),
                dst_adr + 8 * count <= old(self)@.len(),
                self@.len() == old(self)@.len(),
                self@.len() <= usize::MAX,
                forall|j: int|
                    0 <= j < old(self)@.len() && !(dst_adr <= j < dst_adr + 8 * k)
                        ==> self@[j] == old(self)@[j],
                forall|i: int|
                    0 <= i < k ==> spec_load_u64(self@, dst_adr + 8 * i) == src@[i],
            decreases count - k,
        {
            let ghost prev = self@;
            let v = src[k];
            self.write_mem_u64(dst_adr + 8 * k, v);
            proof {
                lemma_auto_spec_u64_to_from_le_bytes();
                lemma_store_bytes_frame(prev, dst_adr + 8 * k, spec_u64_to_le_bytes(v));
                assert forall|i: int| 0 <= i < k + 1 implies spec_load_u64(
                    self@,
                    dst_adr + 8 * i,
                ) == src@[i] by {
                    if i < k {
                        assert(self@.subrange(dst_adr + 8 * i, dst_adr + 8 * i + 8) =~= prev
                            .subrange(dst_adr + 8 * i, dst_adr + 8 * i + 8));
                    } else {
                        assert(self@.subrange(dst_adr + 8 * i, dst_adr + 8 * i + 8)
                            =~= spec_u64_to_le_bytes(v));
                    }
                }
            }
            k = k + 1;
        }
    }
}

/// Law: a register write followed by a read of the same register returns the
/// value written. Stated over the byte-store model that the exec operations
/// are specified against, for each width.
pub proof fn lemma_reg_round_trip_u8(mem: Seq<u8>, reg: int, data: u8)
    requires
        0 <= reg,
        reg + 1 <= mem.len(),
    ensures
        spec_load_u8(spec_store_u8(mem, reg, data), reg) == data,
{
}

/// Law: 16-bit register write/read round-trip.
pub proof fn lemma_reg_round_trip_u16(mem: Seq<u8>, reg: int, data: u16)
    requires
        0 <= reg,
        2 * reg + 2 <= mem.len(),
    ensures
        spec_load_u16(spec_store_u16(mem, 2 * reg, data), 2 * reg) == data,
{
    lemma_auto_spec_u16_to_from_le_bytes();
    assert(spec_store_u16(mem, 2 * reg, data).subrange(2 * reg, 2 * reg + 2)
        =~= spec_u16_to_le_bytes(data));
}

/// Law: 32-bit register write/read round-trip.
pub proof fn lemma_reg_round_trip_u32(mem: Seq<u8>, reg: int, data: u32)
    requires
        0 <= reg,
        4 * reg + 4 <= mem.len(),
    ensures
        spec_load_u32(spec_store_u32(mem, 4 * reg, data), 4 * reg) == data,
{
    lemma_auto_spec_u32_to_from_le_bytes();
    assert(spec_store_u32(mem, 4 * reg, data).subrange(4 * reg, 4 * reg + 4)
        =~= spec_u32_to_le_bytes(data));
}

/// Law: 64-bit register write/read round-trip.
pub proof fn lemma_reg_round_trip_u64(mem: Seq<u8>, reg: int, data: u64)
    requires
        0 <= reg,
        8 * reg + 8 <= mem.len(),
    ensures
        spec_load_u64(spec_store_u64(mem, 8 * reg, data), 8 * reg) == data,
{
    lemma_auto_spec_u64_to_from_le_bytes();
    assert(spec_store_u64(mem, 8 * reg, data).subrange(8 * reg, 8 * reg + 8)
        =~= spec_u64_to_le_bytes(data));
}

/// Law: signed values round-trip through the same bytes as their unsigned
/// bit patterns, for each width.
pub proof fn lemma_reg_round_trip_i8(mem: Seq<u8>, reg: int, data: i8)
    requires
        0 <= reg,
        reg + 1 <= mem.len(),
    ensures
        spec_load_u8(spec_store_u8(mem, reg, data as u8), reg) as i8 == data,
{
    lemma_reg_round_trip_u8(mem, reg, data as u8);
    assert((data as u8) as i8 == data) by (bit_vector);
}

/// Law: 16-bit signed register write/read round-trip.
pub proof fn lemma_reg_round_trip_i16(mem: Seq<u8>, reg: int, data: i16)
    requires
        0 <= reg,
        2 * reg + 2 <= mem.len(),
    ensures
        spec_load_u16(spec_store_u16(mem, 2 * reg, data as u16), 2 * reg) as i16 == data,
{
    lemma_reg_round_trip_u16(mem, reg, data as u16);
    assert((data as u16) as i16 == data) by (bit_vector);
}

/// Law: 32-bit signed register write/read round-trip.
pub proof fn lemma_reg_round_trip_i32(mem: Seq<u8>, reg: int, data: i32)
    requires
        0 <= reg,
        4 * reg + 4 <= mem.len(),
    ensures
        spec_load_u32(spec_store_u32(mem, 4 * reg, data as u32), 4 * reg) as i32 == data,
{
    lemma_reg_round_trip_u32(mem, reg, data as u32);
    assert((data as u32) as i32 == data) by (bit_vector);
}

/// Law: 64-bit signed register write/read round-trip.
pub proof fn lemma_reg_round_trip_i64(mem: Seq<u8>, reg: int, data: i64)
    requires
        0 <= reg,
        8 * reg + 8 <= mem.len(),
    ensures
        spec_load_u64(spec_store_u64(mem, 8 * reg, data as u64), 8 * reg) as i64 == data,
{
    lemma_reg_round_trip_u64(mem, reg, data as u64);
    assert((data as u64) as i64 == data) by (bit_vector);
}

/// Law: native-width register write/read round-trip, at either platform
/// width.
pub proof fn lemma_reg_round_trip_usize(mem: Seq<u8>, reg: int, data: usize)
    requires
        0 <= reg,
        (usize::BITS / 8) * reg + usize::BITS / 8 <= mem.len(),
    ensures
        spec_load_usize(
            spec_store_usize(mem, (usize::BITS / 8) * reg, data),
            (usize::BITS / 8) * reg,
        ) == data,
{
    if usize::BITS == 64 {
        lemma_reg_round_trip_u64(mem, reg, data as u64);
        assert((data as u64) as usize == data);
    } else {
        lemma_reg_round_trip_u32(mem, reg, data as u32);
        assert((data as u32) as usize == data);
    }
}

/// Law: native-width signed register write/read round-trip.
pub proof fn lemma_reg_round_trip_isize(mem: Seq<u8>, reg: int, data: isize)
    requires
        0 <= reg,
        (usize::BITS / 8) * reg + usize::BITS / 8 <= mem.len(),
    ensures
        spec_load_usize(
            spec_store_usize(mem, (usize::BITS / 8) * reg, data as usize),
            (usize::BITS / 8) * reg,
        ) as isize == data,
{
    lemma_reg_round_trip_usize(mem, reg, data as usize);
    assert((data as usize) as isize == data) by (bit_vector);
}

/// Law: writes to distinct registers do not interfere; reading register `r2`
/// after a write to `r1 != r2` returns what was there before.
pub proof fn lemma_reg_write_frame_u32(mem: Seq<u8>, r1: int, r2: int, data: u32)
    requires
        0 <= r1,
        0 <= r2,
        4 * r1 + 4 <= mem.len(),
        4 * r2 + 4 <= mem.len(),
        r1 != r2,
    ensures
        spec_load_u32(spec_store_u32(mem, 4 * r1, data), 4 * r2) == spec_load_u32(mem, 4 * r2),
{
    lemma_auto_spec_u32_to_from_le_bytes();
    lemma_store_bytes_frame(mem, 4 * r1, spec_u32_to_le_bytes(data));
    assert(spec_store_u32(mem, 4 * r1, data).subrange(4 * r2, 4 * r2 + 4)
        =~= mem.subrange(4 * r2, 4 * r2 + 4));
}

} // verus!
