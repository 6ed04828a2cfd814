use vstd::prelude::*;
use crate::mem_accessor::{MemAccessBase, MemAccessor, MemRegion, subregion_of};

verus! {

/// A memory-mapped I/O region: a span of already-accessible addresses, given
/// directly by its base address and size. The physical address equals the
/// base address, since no translation is involved.
#[derive(Clone, Copy)]
pub struct MmioRegion {
    pub addr: usize,
    pub size: usize,
}

impl MmioRegion {
    pub fn new(addr: usize, size: usize) -> (r: Self)
        ensures
            r.addr == addr,
            r.size == size,
    {
        MmioRegion { addr, size }
    }
}

impl MemRegion for MmioRegion {
    open spec fn wf(&self) -> bool {
        self.addr + self.size <= usize::MAX
    }

    open spec fn spec_addr(&self) -> int {
        self.addr as int
    }

    open spec fn spec_size(&self) -> int {
        self.size as int
    }

    open spec fn spec_phys_addr(&self) -> int {
        self.addr as int
    }

    open spec fn subclone_ok(&self, offset: usize, size: usize) -> bool {
        &&& offset < self.size
        &&& size == 0 || offset + size <= self.size
    }

    fn subclone(&self, offset: usize, size: usize) -> (r: Self) {
        let new_addr = self.addr + offset;
        let new_size = self.size - offset;
        let new_size = if size == 0 {
            new_size
        } else {
            size
        };
        MmioRegion { addr: new_addr, size: new_size }
    }

    fn addr(&self) -> usize {
        self.addr
    }

    fn size(&self) -> usize {
        self.size
    }

    fn phys_addr(&self) -> usize {
        self.addr
    }
}

/// An accessor over a memory-mapped I/O region of element width `U`.
pub struct MmioAccessor<U> {
    pub mem_accessor: MemAccessor<MmioRegion, U>,
}

/// Build a width-`U` accessor for the memory-mapped I/O span at `addr`.
pub fn mmio_accesor_new<U>(addr: usize, size: usize) -> (r: MemAccessor<MmioRegion, U>)
    ensures
        r.spec_region().addr == addr,
        r.spec_region().size == size,
{
    MemAccessor::<MmioRegion, U>::new(MmioRegion::new(addr, size))
}

impl<U> MmioAccessor<U> {
    pub open spec fn wf(&self) -> bool {
        self.mem_accessor.wf()
    }

    pub open spec fn spec_region(&self) -> MmioRegion {
        self.mem_accessor.spec_region()
    }

    pub fn new(addr: usize, size: usize) -> (r: Self)
        ensures
            r.spec_region().addr == addr,
            r.spec_region().size == size,
    {
        MmioAccessor { mem_accessor: mmio_accesor_new::<U>(addr, size) }
    }

    /// Narrow the accessor and re-tag it with the element width `NewU`.
    pub fn subclone_<NewU>(&self, offset: usize, size: usize) -> (r: MmioAccessor<NewU>)
        requires
            self.wf(),
            self.spec_region().subclone_ok(offset, size),
        ensures
            subregion_of(&r.spec_region(), &self.spec_region(), offset, size),
    {
        MmioAccessor::<NewU> {
            mem_accessor: self.mem_accessor.subclone_::<NewU>(offset, size),
        }
    }

    pub fn subclone8(&self, offset: usize, size: usize) -> (r: MmioAccessor<u8>)
        requires
            self.wf(),
            self.spec_region().subclone_ok(offset, size),
        ensures
            subregion_of(&r.spec_region(), &self.spec_region(), offset, size),
    {
        self.subclone_::<u8>(offset, size)
    }

    pub fn subclone16(&self, offset: usize, size: usize) -> (r: MmioAccessor<u16>)
        requires
            self.wf(),
            self.spec_region().subclone_ok(offset, size),
        ensures
            subregion_of(&r.spec_region(), &self.spec_region(), offset, size),
    {
        self.subclone_::<u16>(offset, size)
    }

    pub fn subclone32(&self, offset: usize, size: usize) -> (r: MmioAccessor<u32>)
        requires
            self.wf(),
            self.spec_region().subclone_ok(offset, size),
        ensures
            subregion_of(&r.spec_region(), &self.spec_region(), offset, size),
    {
        self.subclone_::<u32>(offset, size)
    }

    pub fn subclone64(&self, offset: usize, size: usize) -> (r: MmioAccessor<u64>)
        requires
            self.wf(),
            self.spec_region().subclone_ok(offset, size),
        ensures
            subregion_of(&r.spec_region(), &self.spec_region(), offset, size),
    {
        self.subclone_::<u64>(offset, size)
    }

    pub fn addr(&self) -> (r: usize)
        requires
            self.wf(),
        ensures
            r == self.spec_region().spec_addr(),
    {
        self.mem_accessor.addr()
    }

    pub fn size(&self) -> (r: usize)
        requires
            self.wf(),
        ensures
            r == self.spec_region().spec_size(),
    {
        self.mem_accessor.size()
    }

    pub fn phys_addr(&self) -> (r: usize)
        requires
            self.wf(),
        ensures
            r == self.spec_region().spec_phys_addr(),
    {
        self.mem_accessor.phys_addr()
    }
}

impl<U> Clone for MmioAccessor<U> {
    /// A clone is an accessor over the same span, with the same width tag.
    fn clone(&self) -> (r: Self)
        ensures
            r.spec_region() == self.spec_region(),
    {
        MmioAccessor {
            mem_accessor: MemAccessor {
                region: self.mem_accessor.region,
                phantom: core::marker::PhantomData,
            },
        }
    }
}

impl<U> MemAccessBase for MmioAccessor<U> {
    open spec fn acc_wf(&self) -> bool {
        self.wf()
    }

    open spec fn acc_addr(&self) -> int {
        self.spec_region().spec_addr()
    }

    open spec fn acc_size(&self) -> int {
        self.spec_region().spec_size()
    }

    open spec fn acc_phys_addr(&self) -> int {
        self.spec_region().spec_phys_addr()
    }

    open spec fn acc_subclone_ok(&self, offset: usize, size: usize) -> bool {
        self.spec_region().subclone_ok(offset, size)
    }

    open spec fn spec_reg_size() -> nat {
        vstd::layout::size_of::<U>()
    }

    fn reg_size() -> (r: usize) {
        core::mem::size_of::<U>()
    }

    fn subclone(&self, offset: usize, size: usize) -> (r: Self) {
        self.subclone_::<U>(offset, size)
    }
}

} // verus!
