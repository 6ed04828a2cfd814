use vstd::prelude::*;
use vstd::arithmetic::power::{lemma_pow_multiplies, pow};
use vstd::arithmetic::power2::{lemma2_to64, lemma_pow2, pow2};
use vstd::string::StringExecFns;
use crate::AccessError;
use crate::mem_accessor::{MemAccessBase, MemAccessor, MemAccessSync, MemRegion, subregion_of};
use crate::mmap_accessor::MmapRegion;
use crate::sys::{read_file_bytes, write_file_bytes};
use crate::text::{
    ascii_chars, ascii_to_string, fmt_dec_u32, fmt_dec_usize, fmt_hex8, lemma_dec_digits_ascii,
    lemma_hex8_value, lemma_hex_value_concat, parse_dec_attr_u32, parse_dec_attr_usize,
    parse_hex_attr, spec_dec_digits, spec_hex8, spec_hex_value,
};

verus! {

// The DMA-buffer backend: a mapped-file region over a kernel-allocated,
// physically contiguous buffer, whose address, size and cache-coherency
// controls are sysfs attributes of the allocator module (`u-dma-buf` by
// default). Opening and mapping `/dev/<name>` is the caller's part; the
// attribute protocol — paths, number formats, and the ranged sync encoding —
// is verified here.
/// The sysfs path `/sys/class/<module>/<device>/<attr>`.
fn attr_path(device_name: &str, module_name: &str, attr: &str) -> (r: String)
    ensures
        r@ == "/sys/class/"@ + module_name@ + "/"@ + device_name@ + "/"@ + attr@,
{
    let mut p: String = "/sys/class/".to_owned();
    p.append(module_name);
    p.append("/");
    p.append(device_name);
    p.append("/");
    p.append(attr);
    p
}

/// Read the buffer's physical base address: the `phys_addr` attribute, a
/// `0x`-prefixed hexadecimal number.
pub fn read_phys_addr(device_name: &str, module_name: &str) -> (r: Result<usize, AccessError>)
    ensures
        r is Err ==> r->Err_0 is Os || r->Err_0 == AccessError::Parse,
{
    let path = attr_path(device_name, module_name, "phys_addr");
    match read_file_bytes(path.as_str()) {
        Ok(b) => parse_hex_attr(b.as_slice()),
        Err(e) => Err(e),
    }
}

/// Read the buffer's size: the `size` attribute, a decimal number.
pub fn read_size(device_name: &str, module_name: &str) -> (r: Result<usize, AccessError>)
    ensures
        r is Err ==> r->Err_0 is Os || r->Err_0 == AccessError::Parse,
{
    let path = attr_path(device_name, module_name, "size");
    match read_file_bytes(path.as_str()) {
        Ok(b) => parse_dec_attr_usize(b.as_slice()),
        Err(e) => Err(e),
    }
}

/// Read the default synchronization mode: the `sync_mode` attribute.
pub fn read_sync_mode(device_name: &str, module_name: &str) -> (r: Result<u32, AccessError>)
    ensures
        r is Err ==> r->Err_0 is Os || r->Err_0 == AccessError::Parse,
{
    let path = attr_path(device_name, module_name, "sync_mode");
    match read_file_bytes(path.as_str()) {
        Ok(b) => parse_dec_attr_u32(b.as_slice()),
        Err(e) => Err(e),
    }
}

/// Set the default synchronization mode, written as a decimal number.
pub fn write_sync_mode(device_name: &str, module_name: &str, sync_mode: u32) -> (r: Result<
    (),
    AccessError,
>)
    ensures
        r is Err ==> r->Err_0 is Os,
{
    let path = attr_path(device_name, module_name, "sync_mode");
    let text = fmt_dec_u32(sync_mode);
    write_file_bytes(path.as_str(), text.as_slice())
}

/// Read the default synchronization window's offset: the `sync_offset`
/// attribute, a decimal number.
pub fn read_sync_offset(device_name: &str, module_name: &str) -> (r: Result<usize, AccessError>)
    ensures
        r is Err ==> r->Err_0 is Os || r->Err_0 == AccessError::Parse,
{
    let path = attr_path(device_name, module_name, "sync_offset");
    match read_file_bytes(path.as_str()) {
        Ok(b) => parse_dec_attr_usize(b.as_slice()),
        Err(e) => Err(e),
    }
}

/// Set the default synchronization window's offset.
pub fn write_sync_offset(device_name: &str, module_name: &str, sync_offset: usize) -> (r: Result<
    (),
    AccessError,
>)
    ensures
        r is Err ==> r->Err_0 is Os,
{
    let path = attr_path(device_name, module_name, "sync_offset");
    let text = fmt_dec_usize(sync_offset);
    write_file_bytes(path.as_str(), text.as_slice())
}

/// Read the default synchronization window's length: the `sync_size`
/// attribute, a decimal number.
pub fn read_sync_size(device_name: &str, module_name: &str) -> (r: Result<usize, AccessError>)
    ensures
        r is Err ==> r->Err_0 is Os || r->Err_0 == AccessError::Parse,
{
    let path = attr_path(device_name, module_name, "sync_size");
    match read_file_bytes(path.as_str()) {
        Ok(b) => parse_dec_attr_usize(b.as_slice()),
        Err(e) => Err(e),
    }
}

/// Set the default synchronization window's length.
pub fn write_sync_size(device_name: &str, module_name: &str, sync_size: usize) -> (r: Result<
    (),
    AccessError,
>)
    ensures
        r is Err ==> r->Err_0 is Os,
{
    let path = attr_path(device_name, module_name, "sync_size");
    let text = fmt_dec_usize(sync_size);
    write_file_bytes(path.as_str(), text.as_slice())
}

/// Read the default transfer direction: the `sync_direction` attribute.
pub fn read_sync_direction(device_name: &str, module_name: &str) -> (r: Result<u32, AccessError>)
    ensures
        r is Err ==> r->Err_0 is Os || r->Err_0 == AccessError::Parse,
{
    let path = attr_path(device_name, module_name, "sync_direction");
    match read_file_bytes(path.as_str()) {
        Ok(b) => parse_dec_attr_u32(b.as_slice()),
        Err(e) => Err(e),
    }
}

/// Set the default transfer direction, written as a decimal number.
pub fn write_sync_directione(device_name: &str, module_name: &str, sync_size: usize) -> (r: Result<
    (),
    AccessError,
>)
    ensures
        r is Err ==> r->Err_0 is Os,
{
    let path = attr_path(device_name, module_name, "sync_direction");
    let text = fmt_dec_usize(sync_size);
    write_file_bytes(path.as_str(), text.as_slice())
}

/// Read whether the buffer is hardware cache-coherent: the `dma_coherent`
/// attribute.
pub fn read_dma_coherent(device_name: &str, module_name: &str) -> (r: Result<u32, AccessError>)
    ensures
        r is Err ==> r->Err_0 is Os || r->Err_0 == AccessError::Parse,
{
    let path = attr_path(device_name, module_name, "dma_coherent");
    match read_file_bytes(path.as_str()) {
        Ok(b) => parse_dec_attr_u32(b.as_slice()),
        Err(e) => Err(e),
    }
}

/// Read which side currently owns the buffer: the `sync_owner` attribute.
pub fn read_sync_owner(device_name: &str, module_name: &str) -> (r: Result<u32, AccessError>)
    ensures
        r is Err ==> r->Err_0 is Os || r->Err_0 == AccessError::Parse,
{
    let path = attr_path(device_name, module_name, "sync_owner");
    match read_file_bytes(path.as_str()) {
        Ok(b) => parse_dec_attr_u32(b.as_slice()),
        Err(e) => Err(e),
    }
}

/// The lower word of a ranged sync request: the size with its low nibble
/// cleared, the two direction bits at bit 2, and the flag bit.
pub open spec fn spec_sync_word(sync_size: usize, sync_direction: u32, flag: u32) -> u32 {
    (((sync_size & 0xFFFFFFF0) as u32) | (sync_direction << 2)) | flag
}

/// The text of a ranged sync request: `0x`, the low 32 bits of the offset as
/// eight uppercase hexadecimal digits, then the lower word likewise.
pub open spec fn spec_sync_arg(
    sync_offset: usize,
    sync_size: usize,
    sync_direction: u32,
    flag: u32,
) -> Seq<u8> {
    seq![48u8, 120u8] + spec_hex8((sync_offset & 0xFFFFFFFF) as u32) + spec_hex8(
        spec_sync_word(sync_size, sync_direction, flag),
    )
}

/// Law: the sixteen digits after the `0x` prefix of a ranged sync request
/// denote one number, the offset's low 32 bits above the
/// size/direction/flag word, exactly as the allocator module decodes it.
pub proof fn lemma_sync_arg_value(
    sync_offset: usize,
    sync_size: usize,
    sync_direction: u32,
    flag: u32,
)
    ensures
        spec_hex_value(spec_sync_arg(sync_offset, sync_size, sync_direction, flag).skip(2))
            == ((sync_offset & 0xFFFFFFFF) as u32) as nat * 0x100000000 + spec_sync_word(
            sync_size,
            sync_direction,
            flag,
        ) as nat,
{
    let hi = (sync_offset & 0xFFFFFFFF) as u32;
    let lo = spec_sync_word(sync_size, sync_direction, flag);
    assert(spec_sync_arg(sync_offset, sync_size, sync_direction, flag).skip(2) =~= spec_hex8(hi)
        + spec_hex8(lo));
    lemma_hex_value_concat(spec_hex8(hi), spec_hex8(lo));
    lemma_hex8_value(hi);
    lemma_hex8_value(lo);
    lemma2_to64();
    lemma_pow2(4);
    lemma_pow2(32);
    lemma_pow_multiplies(2, 4, 8);
    assert(pow(16, 8) == pow2(32));
}

/// Render a ranged sync request exactly as the allocator module parses it:
/// the offset in the upper 32 bits and `(size & !0xF) | (direction << 2) |
/// flag` in the lower 32 bits of one fixed-width hexadecimal number.
pub fn sync_arg_bytes(
    sync_offset: usize,
    sync_size: usize,
    sync_direction: u32,
    flag: u32,
) -> (r: Vec<u8>)
    ensures
        r@ == spec_sync_arg(sync_offset, sync_size, sync_direction, flag),
{
    let mut out: Vec<u8> = Vec::new();
    out.push(48);
    out.push(120);
    let mut hi = fmt_hex8((sync_offset & 0xFFFFFFFF) as u32);
    out.append(&mut hi);
    let word: u32 = (((sync_size & 0xFFFFFFF0) as u32) | (sync_direction << 2)) | flag;
    let mut lo = fmt_hex8(word);
    out.append(&mut lo);
    proof {
        assert(out@ =~= spec_sync_arg(sync_offset, sync_size, sync_direction, flag));
    }
    out
}

/// Make the whole buffer coherent before CPU reads: write the decimal digit
/// of 1 to the `sync_for_cpu` attribute.
pub fn write_sync_for_cpu(device_name: &str, module_name: &str) -> (r: Result<(), AccessError>)
    ensures
        r is Err ==> r->Err_0 is Os,
{
    let path = attr_path(device_name, module_name, "sync_for_cpu");
    let text = fmt_dec_u32(1);
    proof {
        assert(text@ =~= seq![49u8]);
    }
    write_file_bytes(path.as_str(), text.as_slice())
}

/// Make a range coherent before CPU reads: write the ranged request text to
/// the `sync_for_cpu` attribute.
pub fn write_sync_for_cpu_with_range(
    device_name: &str,
    module_name: &str,
    sync_offset: usize,
    sync_size: usize,
    sync_direction: u32,
    sync_for_cpu: u32,
) -> (r: Result<(), AccessError>)
    ensures
        r is Err ==> r->Err_0 is Os,
{
    let path = attr_path(device_name, module_name, "sync_for_cpu");
    let text = sync_arg_bytes(sync_offset, sync_size, sync_direction, sync_for_cpu);
    write_file_bytes(path.as_str(), text.as_slice())
}

/// Make the whole buffer coherent before device access: write the decimal
/// digit of 1 to the `sync_for_device` attribute.
pub fn write_sync_for_device(device_name: &str, module_name: &str) -> (r: Result<
    (),
    AccessError,
>)
    ensures
        r is Err ==> r->Err_0 is Os,
{
    let path = attr_path(device_name, module_name, "sync_for_device");
    let text = fmt_dec_u32(1);
    proof {
        assert(text@ =~= seq![49u8]);
    }
    write_file_bytes(path.as_str(), text.as_slice())
}

/// Make a range coherent before device access: write the ranged request text
/// to the `sync_for_device` attribute.
pub fn write_sync_for_device_with_range(
    device_name: &str,
    module_name: &str,
    sync_offset: usize,
    sync_size: usize,
    sync_direction: u32,
    sync_for_device: u32,
) -> (r: Result<(), AccessError>)
    ensures
        r is Err ==> r->Err_0 is Os,
{
    let path = attr_path(device_name, module_name, "sync_for_device");
    let text = sync_arg_bytes(sync_offset, sync_size, sync_direction, sync_for_device);
    write_file_bytes(path.as_str(), text.as_slice())
}

/// A DMA-buffer region: the mapped span of `/dev/<device>` together with the
/// physical address the allocator reported and the names that address its
/// sysfs attributes.
pub struct UdmabufRegion {
    pub mmap_region: MmapRegion,
    pub phys_addr: usize,
    pub module_name: String,
    pub device_name: String,
}

impl UdmabufRegion {
    /// Wrap the caller-established mapping of the buffer device, with the
    /// physical address its `phys_addr` attribute reported.
    pub fn new(
        mmap_region: MmapRegion,
        phys_addr: usize,
        device_name: String,
        module_name: String,
    ) -> (r: Self)
        requires
            mmap_region.wf(),
            phys_addr + mmap_region.spec_size() <= usize::MAX,
        ensures
            r.wf(),
            r.spec_addr() == mmap_region.spec_addr(),
            r.spec_size() == mmap_region.spec_size(),
            r.spec_phys_addr() == phys_addr,
            r.mmap_region == mmap_region,
            r.device_name == device_name,
            r.module_name == module_name,
    {
        UdmabufRegion { mmap_region, phys_addr, module_name, device_name }
    }

    /// The conventional device name of buffer number `n`: `udmabuf<n>`.
    pub fn numbered_device_name(udmabuf_num: usize) -> (r: String)
        ensures
            r@ == "udmabuf"@ + ascii_chars(spec_dec_digits(udmabuf_num as nat)),
    {
        let mut p: String = "udmabuf".to_owned();
        let digits = fmt_dec_usize(udmabuf_num);
        proof {
            lemma_dec_digits_ascii(udmabuf_num as nat);
        }
        let ds = ascii_to_string(digits.as_slice());
        p.append(ds.as_str());
        p
    }

    pub fn read_phys_addr(&self) -> (r: Result<usize, AccessError>)
    ensures
        r is Err ==> r->Err_0 is Os || r->Err_0 == AccessError::Parse,
    {
        read_phys_addr(self.device_name.as_str(), self.module_name.as_str())
    }

    pub fn read_phys_size(&self) -> (r: Result<usize, AccessError>)
    ensures
        r is Err ==> r->Err_0 is Os || r->Err_0 == AccessError::Parse,
    {
        read_size(self.device_name.as_str(), self.module_name.as_str())
    }

    pub fn read_sync_mode(&self) -> (r: Result<u32, AccessError>)
    ensures
        r is Err ==> r->Err_0 is Os || r->Err_0 == AccessError::Parse,
    {
        read_sync_mode(self.device_name.as_str(), self.module_name.as_str())
    }

    pub fn write_sync_mode(&self, sync_mode: u32) -> (r: Result<(), AccessError>)
    ensures
        r is Err ==> r->Err_0 is Os,
    {
        write_sync_mode(self.device_name.as_str(), self.module_name.as_str(), sync_mode)
    }

    pub fn read_sync_offset(&self) -> (r: Result<usize, AccessError>)
    ensures
        r is Err ==> r->Err_0 is Os || r->Err_0 == AccessError::Parse,
    {
        read_sync_offset(self.device_name.as_str(), self.module_name.as_str())
    }

    pub fn write_sync_offset(&self, sync_offset: usize) -> (r: Result<(), AccessError>)
    ensures
        r is Err ==> r->Err_0 is Os,
    {
        write_sync_offset(self.device_name.as_str(), self.module_name.as_str(), sync_offset)
    }

    pub fn read_sync_size(&self) -> (r: Result<usize, AccessError>)
    ensures
        r is Err ==> r->Err_0 is Os || r->Err_0 == AccessError::Parse,
    {
        read_sync_size(self.device_name.as_str(), self.module_name.as_str())
    }

    pub fn write_sync_size(&self, sync_size: usize) -> (r: Result<(), AccessError>)
    ensures
        r is Err ==> r->Err_0 is Os,
    {
        write_sync_size(self.device_name.as_str(), self.module_name.as_str(), sync_size)
    }

    pub fn read_sync_direction(&self) -> (r: Result<u32, AccessError>)
    ensures
        r is Err ==> r->Err_0 is Os || r->Err_0 == AccessError::Parse,
    {
        read_sync_direction(self.device_name.as_str(), self.module_name.as_str())
    }

    pub fn write_sync_direction(&self, sync_size: usize) -> (r: Result<(), AccessError>)
    ensures
        r is Err ==> r->Err_0 is Os,
    {
        write_sync_directione(self.device_name.as_str(), self.module_name.as_str(), sync_size)
    }

    pub fn read_dma_coherent(&self) -> (r: Result<u32, AccessError>)
    ensures
        r is Err ==> r->Err_0 is Os || r->Err_0 == AccessError::Parse,
    {
        read_dma_coherent(self.device_name.as_str(), self.module_name.as_str())
    }

    pub fn read_sync_owner(&self) -> (r: Result<u32, AccessError>)
    ensures
        r is Err ==> r->Err_0 is Os || r->Err_0 == AccessError::Parse,
    {
        read_sync_owner(self.device_name.as_str(), self.module_name.as_str())
    }

    pub fn write_sync_for_cpu(&self) -> (r: Result<(), AccessError>)
    ensures
        r is Err ==> r->Err_0 is Os,
    {
        write_sync_for_cpu(self.device_name.as_str(), self.module_name.as_str())
    }

    pub fn write_sync_for_cpu_with_range(
        &self,
        sync_offset: usize,
        sync_size: usize,
        sync_direction: u32,
        sync_for_cpu: u32,
    ) -> (r: Result<(), AccessError>)
    ensures
        r is Err ==> r->Err_0 is Os,
    {
        write_sync_for_cpu_with_range(
            self.device_name.as_str(),
            self.module_name.as_str(),
            sync_offset,
            sync_size,
            sync_direction,
            sync_for_cpu,
        )
    }

    pub fn write_sync_for_device(&self) -> (r: Result<(), AccessError>)
    ensures
        r is Err ==> r->Err_0 is Os,
    {
        write_sync_for_device(self.device_name.as_str(), self.module_name.as_str())
    }

    pub fn write_sync_for_device_with_range(
        &self,
        sync_offset: usize,
        sync_size: usize,
        sync_direction: u32,
        sync_for_device: u32,
    ) -> (r: Result<(), AccessError>)
    ensures
        r is Err ==> r->Err_0 is Os,
    {
        write_sync_for_device_with_range(
            self.device_name.as_str(),
            self.module_name.as_str(),
            sync_offset,
            sync_size,
            sync_direction,
            sync_for_device,
        )
    }
}

impl MemRegion for UdmabufRegion {
    open spec fn wf(&self) -> bool {
        &&& self.mmap_region.wf()
        &&& self.phys_addr + self.mmap_region.spec_size() <= usize::MAX
    }

    open spec fn spec_addr(&self) -> int {
        self.mmap_region.spec_addr()
    }

    open spec fn spec_size(&self) -> int {
        self.mmap_region.spec_size()
    }

    open spec fn spec_phys_addr(&self) -> int {
        self.phys_addr as int
    }

    open spec fn subclone_ok(&self, offset: usize, size: usize) -> bool {
        self.mmap_region.subclone_ok(offset, size)
    }

    fn subclone(&self, offset: usize, size: usize) -> (r: Self)
        ensures
            r.mmap_region.mfile == self.mmap_region.mfile,
            r.device_name@ == self.device_name@,
            r.module_name@ == self.module_name@,
    {
        UdmabufRegion {
            mmap_region: self.mmap_region.subclone(offset, size),
            phys_addr: self.phys_addr + offset,
            module_name: self.module_name.clone(),
            device_name: self.device_name.clone(),
        }
    }

    fn addr(&self) -> usize {
        self.mmap_region.addr()
    }

    fn size(&self) -> usize {
        self.mmap_region.size()
    }

    fn phys_addr(&self) -> usize {
        self.phys_addr
    }
}

impl Clone for UdmabufRegion {
    /// A clone is the same view: same span, same mapping handle, same names.
    fn clone(&self) -> (r: Self)
        ensures
            r.mmap_region == self.mmap_region,
            r.phys_addr == self.phys_addr,
            r.device_name@ == self.device_name@,
            r.module_name@ == self.module_name@,
    {
        UdmabufRegion {
            mmap_region: self.mmap_region.clone(),
            phys_addr: self.phys_addr,
            module_name: self.module_name.clone(),
            device_name: self.device_name.clone(),
        }
    }
}

/// An accessor over a DMA-buffer region of element width `U`.
pub struct UdmabufAccessor<U> {
    pub mem_accessor: MemAccessor<UdmabufRegion, U>,
}

impl<U> UdmabufAccessor<U> {
    pub open spec fn wf(&self) -> bool {
        self.mem_accessor.wf()
    }

    pub open spec fn spec_region(&self) -> UdmabufRegion {
        self.mem_accessor.spec_region()
    }

    /// Wrap an established DMA-buffer region in a width-`U` accessor.
    pub fn new(region: UdmabufRegion) -> (r: Self)
        ensures
            r.spec_region() == region,
    {
        UdmabufAccessor { mem_accessor: MemAccessor::<UdmabufRegion, U>::new(region) }
    }

    /// Narrow the accessor and re-tag it with the element width `NewU`.
    pub fn subclone_<NewU>(&self, offset: usize, size: usize) -> (r: UdmabufAccessor<NewU>)
        requires
            self.wf(),
            self.spec_region().subclone_ok(offset, size),
        ensures
            subregion_of(&r.spec_region(), &self.spec_region(), offset, size),
            r.spec_region().mmap_region.mfile == self.spec_region().mmap_region.mfile,
    {
        UdmabufAccessor::<NewU> {
            mem_accessor: MemAccessor::<UdmabufRegion, NewU>::new(
                self.mem_accessor.region().subclone(offset, size),
            ),
        }
    }

    pub fn subclone8(&self, offset: usize, size: usize) -> (r: UdmabufAccessor<u8>)
        requires
            self.wf(),
            self.spec_region().subclone_ok(offset, size),
        ensures
            subregion_of(&r.spec_region(), &self.spec_region(), offset, size),
            r.spec_region().mmap_region.mfile == self.spec_region().mmap_region.mfile,
    {
        self.subclone_::<u8>(offset, size)
    }

    pub fn subclone16(&self, offset: usize, size: usize) -> (r: UdmabufAccessor<u16>)
        requires
            self.wf(),
            self.spec_region().subclone_ok(offset, size),
        ensures
            subregion_of(&r.spec_region(), &self.spec_region(), offset, size),
            r.spec_region().mmap_region.mfile == self.spec_region().mmap_region.mfile,
    {
        self.subclone_::<u16>(offset, size)
    }

    pub fn subclone32(&self, offset: usize, size: usize) -> (r: UdmabufAccessor<u32>)
        requires
            self.wf(),
            self.spec_region().subclone_ok(offset, size),
        ensures
            subregion_of(&r.spec_region(), &self.spec_region(), offset, size),
            r.spec_region().mmap_region.mfile == self.spec_region().mmap_region.mfile,
    {
        self.subclone_::<u32>(offset, size)
    }

    pub fn subclone64(&self, offset: usize, size: usize) -> (r: UdmabufAccessor<u64>)
        requires
            self.wf(),
            self.spec_region().subclone_ok(offset, size),
        ensures
            subregion_of(&r.spec_region(), &self.spec_region(), offset, size),
            r.spec_region().mmap_region.mfile == self.spec_region().mmap_region.mfile,
    {
        self.subclone_::<u64>(offset, size)
    }

    pub fn addr(&self) -> (r: usize)
        requires
            self.wf(),
        ensures
            r == self.spec_region().spec_addr(),
    {
        self.mem_accessor.addr()
    }

    pub fn size(&self) -> (r: usize)
        requires
            self.wf(),
        ensures
            r == self.spec_region().spec_size(),
    {
        self.mem_accessor.size()
    }

    pub fn phys_addr(&self) -> (r: usize)
        requires
            self.wf(),
        ensures
            r == self.spec_region().spec_phys_addr(),
    {
        self.mem_accessor.phys_addr()
    }

    pub fn read_phys_addr(&self) -> (r: Result<usize, AccessError>)
    ensures
        r is Err ==> r->Err_0 is Os || r->Err_0 == AccessError::Parse,
    {
        self.mem_accessor.region().read_phys_addr()
    }

    pub fn read_phys_size(&self) -> (r: Result<usize, AccessError>)
    ensures
        r is Err ==> r->Err_0 is Os || r->Err_0 == AccessError::Parse,
    {
        self.mem_accessor.region().read_phys_size()
    }

    pub fn read_sync_mode(&self) -> (r: Result<u32, AccessError>)
    ensures
        r is Err ==> r->Err_0 is Os || r->Err_0 == AccessError::Parse,
    {
        self.mem_accessor.region().read_sync_mode()
    }

    pub fn write_sync_mode(&self, sync_mode: u32) -> (r: Result<(), AccessError>)
    ensures
        r is Err ==> r->Err_0 is Os,
    {
        self.mem_accessor.region().write_sync_mode(sync_mode)
    }

    pub fn read_sync_offset(&self) -> (r: Result<usize, AccessError>)
    ensures
        r is Err ==> r->Err_0 is Os || r->Err_0 == AccessError::Parse,
    {
        self.mem_accessor.region().read_sync_offset()
    }

    pub fn write_sync_offset(&self, sync_offset: usize) -> (r: Result<(), AccessError>)
    ensures
        r is Err ==> r->Err_0 is Os,
    {
        self.mem_accessor.region().write_sync_offset(sync_offset)
    }

    pub fn read_sync_size(&self) -> (r: Result<usize, AccessError>)
    ensures
        r is Err ==> r->Err_0 is Os || r->Err_0 == AccessError::Parse,
    {
        self.mem_accessor.region().read_sync_size()
    }

    pub fn write_sync_size(&self, sync_size: usize) -> (r: Result<(), AccessError>)
    ensures
        r is Err ==> r->Err_0 is Os,
    {
        self.mem_accessor.region().write_sync_size(sync_size)
    }

    pub fn read_sync_direction(&self) -> (r: Result<u32, AccessError>)
    ensures
        r is Err ==> r->Err_0 is Os || r->Err_0 == AccessError::Parse,
    {
        self.mem_accessor.region().read_sync_direction()
    }

    pub fn write_sync_direction(&self, sync_size: usize) -> (r: Result<(), AccessError>)
    ensures
        r is Err ==> r->Err_0 is Os,
    {
        self.mem_accessor.region().write_sync_direction(sync_size)
    }

    pub fn read_dma_coherent(&self) -> (r: Result<u32, AccessError>)
    ensures
        r is Err ==> r->Err_0 is Os || r->Err_0 == AccessError::Parse,
    {
        self.mem_accessor.region().read_dma_coherent()
    }

    pub fn read_sync_owner(&self) -> (r: Result<u32, AccessError>)
    ensures
        r is Err ==> r->Err_0 is Os || r->Err_0 == AccessError::Parse,
    {
        self.mem_accessor.region().read_sync_owner()
    }

    pub fn write_sync_for_cpu(&self) -> (r: Result<(), AccessError>)
    ensures
        r is Err ==> r->Err_0 is Os,
    {
        self.mem_accessor.region().write_sync_for_cpu()
    }

    pub fn write_sync_for_cpu_with_range(
        &self,
        sync_offset: usize,
        sync_size: usize,
        sync_direction: u32,
        sync_for_cpu: u32,
    ) -> (r: Result<(), AccessError>)
    ensures
        r is Err ==> r->Err_0 is Os,
    {
        self.mem_accessor.region().write_sync_for_cpu_with_range(
            sync_offset,
            sync_size,
            sync_direction,
            sync_for_cpu,
        )
    }

    pub fn write_sync_for_device(&self) -> (r: Result<(), AccessError>)
    ensures
        r is Err ==> r->Err_0 is Os,
    {
        self.mem_accessor.region().write_sync_for_device()
    }

    pub fn write_sync_for_device_with_range(
        &self,
        sync_offset: usize,
        sync_size: usize,
        sync_direction: u32,
        sync_for_device: u32,
    ) -> (r: Result<(), AccessError>)
    ensures
        r is Err ==> r->Err_0 is Os,
    {
        self.mem_accessor.region().write_sync_for_device_with_range(
            sync_offset,
            sync_size,
            sync_direction,
            sync_for_device,
        )
    }
}

impl<U> Clone for UdmabufAccessor<U> {
    /// A clone is an accessor over the same view, sharing the same mapping
    /// handle.
    fn clone(&self) -> (r: Self)
        ensures
            r.spec_region().mmap_region == self.spec_region().mmap_region,
            r.spec_region().phys_addr == self.spec_region().phys_addr,
            r.spec_region().device_name@ == self.spec_region().device_name@,
            r.spec_region().module_name@ == self.spec_region().module_name@,
    {
        UdmabufAccessor {
            mem_accessor: MemAccessor {
                region: self.mem_accessor.region.clone(),
                phantom: core::marker::PhantomData,
            },
        }
    }
}

impl<U> MemAccessBase for UdmabufAccessor<U> {
    open spec fn acc_wf(&self) -> bool {
        self.wf()
    }

    open spec fn acc_addr(&self) -> int {
        self.spec_region().spec_addr()
    }

    open spec fn acc_size(&self) -> int {
        self.spec_region().spec_size()
    }

    open spec fn acc_phys_addr(&self) -> int {
        self.spec_region().spec_phys_addr()
    }

    open spec fn acc_subclone_ok(&self, offset: usize, size: usize) -> bool {
        self.spec_region().subclone_ok(offset, size)
    }

    open spec fn spec_reg_size() -> nat {
        vstd::layout::size_of::<U>()
    }

    fn reg_size() -> (r: usize) {
        core::mem::size_of::<U>()
    }

    fn subclone(&self, offset: usize, size: usize) -> (r: Self) {
        self.subclone_::<U>(offset, size)
    }
}

impl<U> MemAccessSync for UdmabufAccessor<U> {
    fn sync_owner(&self) -> Result<u32, AccessError> {
        self.mem_accessor.region().read_sync_owner()
    }

    fn sync_for_cpu(&self) -> Result<(), AccessError> {
        self.mem_accessor.region().write_sync_for_cpu()
    }

    fn sync_for_cpu_with_range(
        &self,
        sync_offset: usize,
        sync_size: usize,
        sync_direction: u32,
        sync_for_cpu: u32,
    ) -> Result<(), AccessError> {
        self.mem_accessor.region().write_sync_for_cpu_with_range(
            sync_offset,
            sync_size,
            sync_direction,
            sync_for_cpu,
        )
    }

    fn sync_for_device(&self) -> Result<(), AccessError> {
        self.mem_accessor.region().write_sync_for_device()
    }

    fn sync_for_device_with_range(
        &self,
        sync_offset: usize,
        sync_size: usize,
        sync_direction: u32,
        sync_for_device: u32,
    ) -> Result<(), AccessError> {
        self.mem_accessor.region().write_sync_for_device_with_range(
            sync_offset,
            sync_size,
            sync_direction,
            sync_for_device,
        )
    }
}

} // verus!
