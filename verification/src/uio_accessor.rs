use vstd::prelude::*;
use vstd::bytes::{spec_u32_from_le_bytes, spec_u32_to_le_bytes, u32_from_le_bytes, u32_to_le_bytes};
use vstd::string::{StringExecFns, StringSliceAdditionalSpecFns};
use crate::AccessError;
use crate::mem_accessor::{MemAccessBase, MemAccessor, MemRegion, subregion_of};
use crate::mmap_accessor::MmapRegion;
use crate::sys::list_dir_names;
use crate::text::{
    all_dec_digits, ascii_chars, ascii_to_string, fmt_dec_usize, lemma_dec_digits_ascii,
    parse_dec_usize, parse_hex_attr, parse_name_attr, spec_dec_digits, spec_dec_value,
};

verus! {

// The UIO backend: a mapped-file region whose address and size come from the
// kernel's sysfs UIO class, plus interrupt control through the character
// device. Opening and mapping `/dev/uio<N>` is the caller's part (the mmap
// syscall is outside Verus's reach); everything textual and arithmetic is
// verified here.
/// The sysfs path of one attribute of UIO device `uio_num`:
/// `/sys/class/uio/uio<N><suffix>`.
fn uio_path(uio_num: usize, suffix: &str) -> (r: String)
    ensures
        r@ == "/sys/class/uio/uio"@ + ascii_chars(spec_dec_digits(uio_num as nat)) + suffix@,
{
    let mut p: String = "/sys/class/uio/uio".to_owned();
    let digits = fmt_dec_usize(uio_num);
    proof {
        lemma_dec_digits_ascii(uio_num as nat);
    }
    let ds = ascii_to_string(digits.as_slice());
    p.append(ds.as_str());
    p.append(suffix);
    p
}

/// The number `N` of a directory entry of the form `uio<N>`, `N` decimal.
pub open spec fn spec_uio_entry_num(s: Seq<u8>) -> Option<nat> {
    if s.len() > 3 && s[0] == 117 && s[1] == 105 && s[2] == 111 && all_dec_digits(s.skip(3)) {
        Some(spec_dec_value(s.skip(3)))
    } else {
        None
    }
}

/// Extract the device number from a `/sys/class/uio` entry name such as
/// `uio3`. Returns it exactly when the name has that form and the number
/// fits in `usize`.
pub fn parse_uio_entry(name: &str) -> (r: Option<usize>)
    ensures
        r is Some <==> spec_uio_entry_num(name.spec_bytes()) is Some && spec_uio_entry_num(
            name.spec_bytes(),
        )->0 <= usize::MAX,
        r is Some ==> r->0 == spec_uio_entry_num(name.spec_bytes())->0,
{
    let b = name.as_bytes();
    let n = b.len();
    if n > 3 && b[0] == 117 && b[1] == 105 && b[2] == 111 {
        let digits = vstd::slice::slice_subrange(b, 3, n);
        proof {
            assert(digits@ =~= name.spec_bytes().skip(3));
        }
        parse_dec_usize(digits)
    } else {
        None
    }
}

/// The numbers of the `uio<N>` entries of a directory listing, in the
/// listing's order; entries of any other form are skipped.
pub open spec fn spec_uio_numbers(names: Seq<String>) -> Seq<usize>
    decreases names.len(),
{
    if names.len() == 0 {
        Seq::empty()
    } else {
        let num = spec_uio_entry_num(vstd::utf8::encode_utf8(names[0]@));
        let rest = spec_uio_numbers(names.skip(1));
        if num is Some && num->0 <= usize::MAX {
            seq![num->0 as usize] + rest
        } else {
            rest
        }
    }
}

/// Collect the numbers of the `uio<N>` entries of a listing, in order.
pub fn parse_uio_entries(names: &Vec<String>) -> (r: Vec<usize>)
    ensures
        r@ == spec_uio_numbers(names@),
{
    let n = names.len();
    let mut out: Vec<usize> = Vec::new();
    let mut k: usize = 0;
    proof {
        assert(names@.skip(0) =~= names@);
    }
    while k < n
        invariant
            k <= n,
            n == names@.len(),
            spec_uio_numbers(names@) =~= out@ + spec_uio_numbers(names@.skip(k as int)),
        decreases n - k,
    {
        proof {
            assert(names@.skip(k as int)[0] == names@[k as int]);
            assert(names@.skip(k as int).skip(1) =~= names@.skip(k + 1));
        }
        match parse_uio_entry(names[k].as_str()) {
            Some(num) => {
                out.push(num);
            },
            None => {},
        }
        k = k + 1;
    }
    proof {
        assert(names@.skip(n as int).len() == 0);
        assert(out@ + spec_uio_numbers(names@.skip(n as int)) =~= out@);
    }
    out
}

/// Pick the smallest device number among `entries` whose name equals `name`
/// exactly; none when no entry matches. Choosing by number rather than by
/// position keeps the answer independent of the order a directory listing
/// hands its entries out.
pub fn select_uio_by_name(entries: &Vec<(usize, String)>, name: &String) -> (r: Option<usize>)
    ensures
        r is None ==> forall|i: int| 0 <= i < entries@.len() ==> entries@[i].1@ != name@,
        r is Some ==> exists|i: int|
            0 <= i < entries@.len() && entries@[i].1@ == name@ && entries@[i].0 == r->0,
        r is Some ==> forall|i: int|
            0 <= i < entries@.len() && entries@[i].1@ == name@ ==> r->0 <= entries@[i].0,
{
    let n = entries.len();
    let mut best: Option<usize> = None;
    let ghost mut wit: int = 0;
    let mut k: usize = 0;
    while k < n
        invariant
            k <= n,
            n == entries@.len(),
            best is None ==> forall|i: int| 0 <= i < k ==> entries@[i].1@ != name@,
            best is Some ==> 0 <= wit < k && entries@[wit as int].1@ == name@
                && entries@[wit as int].0 == best->0,
            best is Some ==> forall|i: int|
                0 <= i < k && entries@[i].1@ == name@ ==> best->0 <= entries@[i].0,
        decreases n - k,
    {
        let e = &entries[k];
        if e.1 == *name {
            match best {
                Some(b) => {
                    if e.0 < b {
                        best = Some(e.0);
                        proof {
                            wit = k as int;
                        }
                    }
                },
                None => {
                    best = Some(e.0);
                    proof {
                        wit = k as int;
                    }
                },
            }
        }
        k = k + 1;
    }
    best
}

/// The 4-byte flag an interrupt-control write sends: 1 to enable, 0 to
/// disable, in the byte order of this library's targets.
pub open spec fn spec_irq_enable_bytes(enable: bool) -> Seq<u8> {
    spec_u32_to_le_bytes(
        if enable {
            1u32
        } else {
            0u32
        },
    )
}

/// Render the interrupt-control flag for `set_irq_enable`.
pub fn irq_enable_bytes(enable: bool) -> (r: Vec<u8>)
    ensures
        r@ == spec_irq_enable_bytes(enable),
{
    let flag: u32 = if enable {
        1
    } else {
        0
    };
    u32_to_le_bytes(flag)
}

/// What an interrupt wait answers, given the bytes the kernel's read handed
/// back: the decoded 4-byte counter, or an operating-system error with errno
/// zero when the read was short.
pub open spec fn spec_irq_count(bytes: Seq<u8>) -> Result<u32, AccessError> {
    if bytes.len() == 4 {
        Ok(spec_u32_from_le_bytes(bytes))
    } else {
        Err(AccessError::Os(0))
    }
}

/// Decode the kernel's answer to an interrupt wait.
pub fn decode_irq_count(bytes: &[u8]) -> (r: Result<u32, AccessError>)
    ensures
        r == spec_irq_count(bytes@),
{
    if bytes.len() == 4 {
        Ok(u32_from_le_bytes(bytes))
    } else {
        Err(AccessError::Os(0))
    }
}

/// A UIO device region: the mapped span of `/dev/uio<N>` together with the
/// physical address that sysfs reported for it.
pub struct UioRegion {
    pub mmap_region: MmapRegion,
    pub phys_addr: usize,
}

impl UioRegion {
    /// Wrap the caller-established mapping of a UIO device, with the
    /// physical address its sysfs `maps/map0/addr` attribute reported.
    pub fn new(mmap_region: MmapRegion, phys_addr: usize) -> (r: Self)
        requires
            mmap_region.wf(),
            phys_addr + mmap_region.spec_size() <= usize::MAX,
        ensures
            r.wf(),
            r.spec_addr() == mmap_region.spec_addr(),
            r.spec_size() == mmap_region.spec_size(),
            r.spec_phys_addr() == phys_addr,
            r.mmap_region == mmap_region,
    {
        UioRegion { mmap_region, phys_addr }
    }

    /// Enable or disable the device interrupt: the 4-byte flag of
    /// `irq_enable_bytes` written to the UIO file descriptor.
    pub fn set_irq_enable(&mut self, enable: bool) -> (r: Result<(), AccessError>)
        ensures
            *final(self) == *old(self),
            r is Err ==> r->Err_0 is Os,
    {
        let data = irq_enable_bytes(enable);
        match self.mmap_region.write(data.as_slice()) {
            Ok(_) => Ok(()),
            Err(e) => Err(e),
        }
    }

    /// Block until an interrupt arrives; the kernel answers the read with
    /// its 4-byte interrupt occurrence count, decoded by `decode_irq_count`.
    pub fn wait_irq(&mut self) -> (r: Result<u32, AccessError>)
        ensures
            *final(self) == *old(self),
            r is Err ==> r->Err_0 is Os,
    {
        match self.mmap_region.read(4) {
            Ok(buf) => decode_irq_count(buf.as_slice()),
            Err(e) => Err(e),
        }
    }

    /// Non-blocking readiness check: true when an interrupt is pending,
    /// false on timeout.
    pub fn peek_irq(&self, timeout_ms: i32) -> (r: Result<bool, AccessError>)
        ensures
            r is Err ==> r->Err_0 is Os,
    {
        self.mmap_region.poll(timeout_ms)
    }

    /// Wait for an interrupt, but give up after `timeout_ms`: the count when
    /// one arrived in time, nothing on timeout. Whether the wait happens
    /// follows the kernel's readiness answer, which no contract here can
    /// name; the contract states the error shape only.
    pub fn poll_irq(&mut self, timeout_ms: i32) -> (r: Result<Option<u32>, AccessError>)
        ensures
            *final(self) == *old(self),
            r is Err ==> r->Err_0 is Os,
    {
        let ready = self.peek_irq(timeout_ms);
        match ready {
            Ok(true) => {
                match self.wait_irq() {
                    Ok(count) => Ok(Some(count)),
                    Err(e) => Err(e),
                }
            },
            Ok(false) => Ok(None),
            Err(e) => Err(e),
        }
    }

    /// The device's name: the trimmed contents of
    /// `/sys/class/uio/uio<N>/name`, an ASCII text attribute.
    pub fn read_name(uio_num: usize) -> (r: Result<String, AccessError>)
        ensures
            r is Err ==> r->Err_0 is Os || r->Err_0 == AccessError::Parse,
    {
        let path = uio_path(uio_num, "/name");
        match crate::sys::read_file_bytes(path.as_str()) {
            Ok(b) => parse_name_attr(b.as_slice()),
            Err(e) => Err(e),
        }
    }

    /// The device's span length: `/sys/class/uio/uio<N>/maps/map0/size`,
    /// a `0x`-prefixed hexadecimal attribute.
    pub fn read_size(uio_num: usize) -> (r: Result<usize, AccessError>)
        ensures
            r is Err ==> r->Err_0 is Os || r->Err_0 == AccessError::Parse,
    {
        let path = uio_path(uio_num, "/maps/map0/size");
        match crate::sys::read_file_bytes(path.as_str()) {
            Ok(b) => parse_hex_attr(b.as_slice()),
            Err(e) => Err(e),
        }
    }

    /// The device's physical base address:
    /// `/sys/class/uio/uio<N>/maps/map0/addr`, a `0x`-prefixed hexadecimal
    /// attribute.
    pub fn read_phys_addr(uio_num: usize) -> (r: Result<usize, AccessError>)
        ensures
            r is Err ==> r->Err_0 is Os || r->Err_0 == AccessError::Parse,
    {
        let path = uio_path(uio_num, "/maps/map0/addr");
        match crate::sys::read_file_bytes(path.as_str()) {
            Ok(b) => parse_hex_attr(b.as_slice()),
            Err(e) => Err(e),
        }
    }

    /// Read each listed device's name: the given numbers paired with the
    /// names their sysfs attributes hold, numbers kept exactly and in order.
    fn read_uio_names(nums: &Vec<usize>) -> (r: Result<Vec<(usize, String)>, AccessError>)
        ensures
            r is Ok ==> r->Ok_0@.len() == nums@.len(),
            r is Ok ==> forall|i: int| 0 <= i < nums@.len() ==> r->Ok_0@[i].0 == nums@[i],
            r is Err ==> r->Err_0 is Os || r->Err_0 == AccessError::Parse,
    {
        let n = nums.len();
        let mut entries: Vec<(usize, String)> = Vec::new();
        let mut k: usize = 0;
        while k < n
            invariant
                k <= n,
                n == nums@.len(),
                entries@.len() == k,
                forall|i: int| 0 <= i < k ==> entries@[i].0 == nums@[i],
            decreases n - k,
        {
            let num = nums[k];
            match Self::read_name(num) {
                Ok(dev_name) => {
                    entries.push((num, dev_name));
                },
                Err(e) => {
                    return Err(e);
                },
            }
            k = k + 1;
        }
        Ok(entries)
    }

    /// Scan `/sys/class/uio` and resolve the smallest device number whose
    /// name equals `name` exactly; `DeviceNotFound` when none matches. Each
    /// step is exact over its input: `parse_uio_entries` gives the listing's
    /// `uio<N>` numbers in order, `read_uio_names` pairs each with the name
    /// read for it, and `select_uio_by_name` picks the smallest match.
    pub fn find_uio_num_by_name(name: &str) -> (r: Result<usize, AccessError>)
        ensures
            r is Err ==> r->Err_0 is Os || r->Err_0 == AccessError::Parse || r->Err_0
                == AccessError::DeviceNotFound,
    {
        let dir_names = match list_dir_names("/sys/class/uio") {
            Ok(ns) => ns,
            Err(e) => {
                return Err(AccessError::Os(e));
            },
        };
        let nums = parse_uio_entries(&dir_names);
        let entries = match Self::read_uio_names(&nums) {
            Ok(es) => es,
            Err(e) => {
                return Err(e);
            },
        };
        let target: String = name.to_owned();
        match select_uio_by_name(&entries, &target) {
            Some(num) => Ok(num),
            None => Err(AccessError::DeviceNotFound),
        }
    }
}

impl MemRegion for UioRegion {
    open spec fn wf(&self) -> bool {
        &&& self.mmap_region.wf()
        &&& self.phys_addr + self.mmap_region.spec_size() <= usize::MAX
    }

    open spec fn spec_addr(&self) -> int {
        self.mmap_region.spec_addr()
    }

    open spec fn spec_size(&self) -> int {
        self.mmap_region.spec_size()
    }

    open spec fn spec_phys_addr(&self) -> int {
        self.phys_addr as int
    }

    open spec fn subclone_ok(&self, offset: usize, size: usize) -> bool {
        self.mmap_region.subclone_ok(offset, size)
    }

    fn subclone(&self, offset: usize, size: usize) -> (r: Self)
        ensures
            r.mmap_region.mfile == self.mmap_region.mfile,
    {
        UioRegion {
            mmap_region: self.mmap_region.subclone(offset, size),
            phys_addr: self.phys_addr + offset,
        }
    }

    fn addr(&self) -> usize {
        self.mmap_region.addr()
    }

    fn size(&self) -> usize {
        self.mmap_region.size()
    }

    fn phys_addr(&self) -> usize {
        self.phys_addr
    }
}

/// An accessor over a UIO device region of element width `U`.
pub struct UioAccessor<U> {
    pub mem_accessor: MemAccessor<UioRegion, U>,
}

impl<U> UioAccessor<U> {
    pub open spec fn wf(&self) -> bool {
        self.mem_accessor.wf()
    }

    pub open spec fn spec_region(&self) -> UioRegion {
        self.mem_accessor.spec_region()
    }

    /// Wrap an established UIO region in a width-`U` accessor.
    pub fn new(region: UioRegion) -> (r: Self)
        ensures
            r.spec_region() == region,
    {
        UioAccessor { mem_accessor: MemAccessor::<UioRegion, U>::new(region) }
    }

    /// Narrow the accessor and re-tag it with the element width `NewU`.
    pub fn subclone_<NewU>(&self, offset: usize, size: usize) -> (r: UioAccessor<NewU>)
        requires
            self.wf(),
            self.spec_region().subclone_ok(offset, size),
        ensures
            subregion_of(&r.spec_region(), &self.spec_region(), offset, size),
            r.spec_region().mmap_region.mfile == self.spec_region().mmap_region.mfile,
    {
        UioAccessor::<NewU> {
            mem_accessor: MemAccessor::<UioRegion, NewU>::new(
                self.mem_accessor.region().subclone(offset, size),
            ),
        }
    }

    pub fn subclone8(&self, offset: usize, size: usize) -> (r: UioAccessor<u8>)
        requires
            self.wf(),
            self.spec_region().subclone_ok(offset, size),
        ensures
            subregion_of(&r.spec_region(), &self.spec_region(), offset, size),
            r.spec_region().mmap_region.mfile == self.spec_region().mmap_region.mfile,
    {
        self.subclone_::<u8>(offset, size)
    }

    pub fn subclone16(&self, offset: usize, size: usize) -> (r: UioAccessor<u16>)
        requires
            self.wf(),
            self.spec_region().subclone_ok(offset, size),
        ensures
            subregion_of(&r.spec_region(), &self.spec_region(), offset, size),
            r.spec_region().mmap_region.mfile == self.spec_region().mmap_region.mfile,
    {
        self.subclone_::<u16>(offset, size)
    }

    pub fn subclone32(&self, offset: usize, size: usize) -> (r: UioAccessor<u32>)
        requires
            self.wf(),
            self.spec_region().subclone_ok(offset, size),
        ensures
            subregion_of(&r.spec_region(), &self.spec_region(), offset, size),
            r.spec_region().mmap_region.mfile == self.spec_region().mmap_region.mfile,
    {
        self.subclone_::<u32>(offset, size)
    }

    pub fn subclone64(&self, offset: usize, size: usize) -> (r: UioAccessor<u64>)
        requires
            self.wf(),
            self.spec_region().subclone_ok(offset, size),
        ensures
            subregion_of(&r.spec_region(), &self.spec_region(), offset, size),
            r.spec_region().mmap_region.mfile == self.spec_region().mmap_region.mfile,
    {
        self.subclone_::<u64>(offset, size)
    }

    pub fn addr(&self) -> (r: usize)
        requires
            self.wf(),
        ensures
            r == self.spec_region().spec_addr(),
    {
        self.mem_accessor.addr()
    }

    pub fn size(&self) -> (r: usize)
        requires
            self.wf(),
        ensures
            r == self.spec_region().spec_size(),
    {
        self.mem_accessor.size()
    }

    pub fn phys_addr(&self) -> (r: usize)
        requires
            self.wf(),
        ensures
            r == self.spec_region().spec_phys_addr(),
    {
        self.mem_accessor.phys_addr()
    }

    /// Readiness check for a pending interrupt; see `UioRegion::peek_irq`.
    pub fn peek_irq(&self, timeout_ms: i32) -> (r: Result<bool, AccessError>)
        ensures
            r is Err ==> r->Err_0 is Os,
    {
        self.mem_accessor.region().peek_irq(timeout_ms)
    }

    /// Enable or disable the device interrupt; see
    /// `UioRegion::set_irq_enable`.
    pub fn set_irq_enable(&mut self, enable: bool) -> (r: Result<(), AccessError>)
        ensures
            final(self).spec_region() == old(self).spec_region(),
            r is Err ==> r->Err_0 is Os,
    {
        self.mem_accessor.region_mut().set_irq_enable(enable)
    }

    /// Block until an interrupt arrives; see `UioRegion::wait_irq`.
    pub fn wait_irq(&mut self) -> (r: Result<u32, AccessError>)
        ensures
            final(self).spec_region() == old(self).spec_region(),
            r is Err ==> r->Err_0 is Os,
    {
        self.mem_accessor.region_mut().wait_irq()
    }

    /// Wait for an interrupt with a timeout; see `UioRegion::poll_irq`.
    pub fn poll_irq(&mut self, timeout_ms: i32) -> (r: Result<Option<u32>, AccessError>)
        ensures
            final(self).spec_region() == old(self).spec_region(),
            r is Err ==> r->Err_0 is Os,
    {
        self.mem_accessor.region_mut().poll_irq(timeout_ms)
    }
}

impl<U> MemAccessBase for UioAccessor<U> {
    open spec fn acc_wf(&self) -> bool {
        self.wf()
    }

    open spec fn acc_addr(&self) -> int {
        self.spec_region().spec_addr()
    }

    open spec fn acc_size(&self) -> int {
        self.spec_region().spec_size()
    }

    open spec fn acc_phys_addr(&self) -> int {
        self.spec_region().spec_phys_addr()
    }

    open spec fn acc_subclone_ok(&self, offset: usize, size: usize) -> bool {
        self.spec_region().subclone_ok(offset, size)
    }

    open spec fn spec_reg_size() -> nat {
        vstd::layout::size_of::<U>()
    }

    fn reg_size() -> (r: usize) {
        core::mem::size_of::<U>()
    }

    fn subclone(&self, offset: usize, size: usize) -> (r: Self) {
        self.subclone_::<U>(offset, size)
    }
}

} // verus!
