use vstd::prelude::*;
use crate::mem_accessor::{MemAccessBase, MemAccessor, MemRegion, subregion_of};

verus! {

/// A region whose address and size are fixed at compile time, for a
/// peripheral at a known physical offset. It carries no run-time state.
///
/// A compile-time span has no narrower compile-time representation, so
/// `subclone` only accepts the whole region (`offset == 0` and a `size` of
/// `0` or `SIZE`); a narrower window is declared as a new constant region.
#[derive(Clone, Copy)]
pub struct PhysRegion<const ADDR: usize, const SIZE: usize> {}

impl<const ADDR: usize, const SIZE: usize> PhysRegion<ADDR, SIZE> {
    pub fn new() -> Self {
        PhysRegion::<ADDR, SIZE> {  }
    }
}

impl<const ADDR: usize, const SIZE: usize> MemRegion for PhysRegion<ADDR, SIZE> {
    open spec fn wf(&self) -> bool {
        ADDR + SIZE <= usize::MAX
    }

    open spec fn spec_addr(&self) -> int {
        ADDR as int
    }

    open spec fn spec_size(&self) -> int {
        SIZE as int
    }

    open spec fn spec_phys_addr(&self) -> int {
        ADDR as int
    }

    open spec fn subclone_ok(&self, offset: usize, size: usize) -> bool {
        &&& offset == 0
        &&& size == 0 || size == SIZE
    }

    fn subclone(&self, offset: usize, size: usize) -> (r: Self) {
        PhysRegion::<ADDR, SIZE> {  }
    }

    fn addr(&self) -> usize {
        ADDR
    }

    fn size(&self) -> usize {
        SIZE
    }

    fn phys_addr(&self) -> usize {
        ADDR
    }
}

/// An accessor of element width `U` over the compile-time region
/// `[ADDR, ADDR + SIZE)`.
pub struct PhysAccessor<U, const ADDR: usize, const SIZE: usize> {
    pub mem_accessor: MemAccessor<PhysRegion<ADDR, SIZE>, U>,
}

impl<U, const ADDR: usize, const SIZE: usize> PhysAccessor<U, ADDR, SIZE> {
    pub open spec fn wf(&self) -> bool {
        self.mem_accessor.wf()
    }

    pub open spec fn spec_region(&self) -> PhysRegion<ADDR, SIZE> {
        self.mem_accessor.spec_region()
    }

    pub fn new() -> Self {
        PhysAccessor {
            mem_accessor: MemAccessor::<PhysRegion<ADDR, SIZE>, U>::new(
                PhysRegion::<ADDR, SIZE>::new(),
            ),
        }
    }

    /// Re-tag the accessor with the element width `NewU`; the compile-time
    /// span itself cannot shrink.
    pub fn subclone_<NewU>(&self, offset: usize, size: usize) -> (r: PhysAccessor<
        NewU,
        ADDR,
        SIZE,
    >)
        requires
            self.wf(),
            self.spec_region().subclone_ok(offset, size),
        ensures
            subregion_of(&r.spec_region(), &self.spec_region(), offset, size),
    {
        PhysAccessor::<NewU, ADDR, SIZE> {
            mem_accessor: self.mem_accessor.subclone_::<NewU>(offset, size),
        }
    }

    pub fn subclone8(&self, offset: usize, size: usize) -> (r: PhysAccessor<u8, ADDR, SIZE>)
        requires
            self.wf(),
            self.spec_region().subclone_ok(offset, size),
        ensures
            subregion_of(&r.spec_region(), &self.spec_region(), offset, size),
    {
        self.subclone_::<u8>(offset, size)
    }

    pub fn subclone16(&self, offset: usize, size: usize) -> (r: PhysAccessor<u16, ADDR, SIZE>)
        requires
            self.wf(),
            self.spec_region().subclone_ok(offset, size),
        ensures
            subregion_of(&r.spec_region(), &self.spec_region(), offset, size),
    {
        self.subclone_::<u16>(offset, size)
    }

    pub fn subclone32(&self, offset: usize, size: usize) -> (r: PhysAccessor<u32, ADDR, SIZE>)
        requires
            self.wf(),
            self.spec_region().subclone_ok(offset, size),
        ensures
            subregion_of(&r.spec_region(), &self.spec_region(), offset, size),
    {
        self.subclone_::<u32>(offset, size)
    }

    pub fn subclone64(&self, offset: usize, size: usize) -> (r: PhysAccessor<u64, ADDR, SIZE>)
        requires
            self.wf(),
            self.spec_region().subclone_ok(offset, size),
        ensures
            subregion_of(&r.spec_region(), &self.spec_region(), offset, size),
    {
        self.subclone_::<u64>(offset, size)
    }

    pub fn addr(&self) -> (r: usize)
        requires
            self.wf(),
        ensures
            r == self.spec_region().spec_addr(),
    {
        self.mem_accessor.addr()
    }

    pub fn size(&self) -> (r: usize)
        requires
            self.wf(),
        ensures
            r == self.spec_region().spec_size(),
    {
        self.mem_accessor.size()
    }

    pub fn phys_addr(&self) -> (r: usize)
        requires
            self.wf(),
        ensures
            r == self.spec_region().spec_phys_addr(),
    {
        self.mem_accessor.phys_addr()
    }
}

impl<U, const ADDR: usize, const SIZE: usize> Clone for PhysAccessor<U, ADDR, SIZE> {
    /// A clone is an accessor over the same compile-time span.
    fn clone(&self) -> (r: Self)
        ensures
            r.spec_region() == self.spec_region(),
    {
        PhysAccessor {
            mem_accessor: MemAccessor {
                region: self.mem_accessor.region,
                phantom: core::marker::PhantomData,
            },
        }
    }
}

impl<U, const ADDR: usize, const SIZE: usize> MemAccessBase for PhysAccessor<U, ADDR, SIZE> {
    open spec fn acc_wf(&self) -> bool {
        self.wf()
    }

    open spec fn acc_addr(&self) -> int {
        self.spec_region().spec_addr()
    }

    open spec fn acc_size(&self) -> int {
        self.spec_region().spec_size()
    }

    open spec fn acc_phys_addr(&self) -> int {
        self.spec_region().spec_phys_addr()
    }

    open spec fn acc_subclone_ok(&self, offset: usize, size: usize) -> bool {
        self.spec_region().subclone_ok(offset, size)
    }

    open spec fn spec_reg_size() -> nat {
        vstd::layout::size_of::<U>()
    }

    fn reg_size() -> (r: usize) {
        core::mem::size_of::<U>()
    }

    fn subclone(&self, offset: usize, size: usize) -> (r: Self) {
        self.subclone_::<U>(offset, size)
    }
}

} // verus!
