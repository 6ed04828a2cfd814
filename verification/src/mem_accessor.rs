use vstd::prelude::*;
use core::marker::PhantomData;

verus! {

/// A contiguous span of addressable memory: a base address, a size in bytes,
/// and the physical (bus) address that the base corresponds to.
///
/// A region can be narrowed to a sub-span with `subclone`; which narrowing
/// requests a backend accepts is given by its `subclone_ok`.
pub trait MemRegion: Sized {
    /// The span and its physical image fit in the address space.
    spec fn wf(&self) -> bool;

    /// Base address of the span, as seen by loads and stores.
    spec fn spec_addr(&self) -> int;

    /// Length of the span in bytes.
    spec fn spec_size(&self) -> int;

    /// Physical address corresponding to `spec_addr`.
    spec fn spec_phys_addr(&self) -> int;

    /// The narrowing requests this backend accepts. A `size` of zero asks for
    /// the rest of the region from `offset` on.
    spec fn subclone_ok(&self, offset: usize, size: usize) -> bool;

    /// Narrow the region to `size` bytes (or, if `size` is zero, to all the
    /// remaining bytes) starting `offset` bytes into the span.
    fn subclone(&self, offset: usize, size: usize) -> (r: Self)
        requires
            self.wf(),
            self.subclone_ok(offset, size),
        ensures
            r.wf(),
            r.spec_addr() == self.spec_addr() + offset,
            r.spec_size() == if size == 0 {
                self.spec_size() - offset
            } else {
                size as int
            },
            r.spec_phys_addr() == self.spec_phys_addr() + offset,
    ;

    fn addr(&self) -> (r: usize)
        requires
            self.wf(),
        ensures
            r == self.spec_addr(),
    ;

    fn size(&self) -> (r: usize)
        requires
            self.wf(),
        ensures
            r == self.spec_size(),
    ;

    fn phys_addr(&self) -> (r: usize)
        requires
            self.wf(),
        ensures
            r == self.spec_phys_addr(),
    ;
}

/// What `subclone(offset, size)` returns: the span starting `offset` bytes
/// into `parent`, `size` bytes long (or all the remaining bytes when `size`
/// is zero), with the physical address shifted by the same `offset`.
pub open spec fn subregion_of<T: MemRegion>(r: &T, parent: &T, offset: usize, size: usize) -> bool {
    &&& r.wf()
    &&& r.spec_addr() == parent.spec_addr() + offset
    &&& r.spec_size() == if size == 0 {
        parent.spec_size() - offset
    } else {
        size as int
    }
    &&& r.spec_phys_addr() == parent.spec_phys_addr() + offset
}

/// The part of the typed-accessor interface that does not depend on the
/// region backend: the element width and same-width narrowing.
pub trait MemAccessBase: Sized {
    /// The geometry of the region the accessor wraps.
    spec fn acc_wf(&self) -> bool;

    spec fn acc_addr(&self) -> int;

    spec fn acc_size(&self) -> int;

    spec fn acc_phys_addr(&self) -> int;

    spec fn acc_subclone_ok(&self, offset: usize, size: usize) -> bool;

    /// Width in bytes of the element type the accessor is tagged with.
    spec fn spec_reg_size() -> nat;

    fn reg_size() -> (r: usize)
        ensures
            r == Self::spec_reg_size(),
    ;

    /// Narrow the accessor, keeping its element width.
    fn subclone(&self, offset: usize, size: usize) -> (r: Self)
        requires
            self.acc_wf(),
            self.acc_subclone_ok(offset, size),
        ensures
            r.acc_wf(),
            r.acc_addr() == self.acc_addr() + offset,
            r.acc_size() == if size == 0 {
                self.acc_size() - offset
            } else {
                size as int
            },
            r.acc_phys_addr() == self.acc_phys_addr() + offset,
    ;
}

/// Cache maintenance operations offered by backends whose memory is cached.
/// No backend of this crate implements it; it is for accessors a user builds
/// atop this library.
pub trait MemAccessCache {
    fn cache_flush(&self, offset: usize, size: usize);

    fn cache_flush_all(&self);

    fn cache_invalidate(&self, offset: usize, size: usize);

    fn cache_invalidate_all(&self);
}

/// Cache-coherency synchronization between the CPU's and a device's view of a
/// buffer, as offered by the DMA-buffer backend.
pub trait MemAccessSync {
    /// Read which side currently owns the buffer.
    fn sync_owner(&self) -> (r: Result<u32, crate::AccessError>)
        ensures
            r is Err ==> r->Err_0 is Os || r->Err_0 == crate::AccessError::Parse,
    ;

    /// Make the whole buffer coherent before CPU reads.
    fn sync_for_cpu(&self) -> (r: Result<(), crate::AccessError>)
        ensures
            r is Err ==> r->Err_0 is Os,
    ;

    /// Make the given range coherent before CPU reads.
    fn sync_for_cpu_with_range(
        &self,
        sync_offset: usize,
        sync_size: usize,
        sync_direction: u32,
        sync_for_cpu: u32,
    ) -> (r: Result<(), crate::AccessError>)
        ensures
            r is Err ==> r->Err_0 is Os,
    ;

    /// Make the whole buffer coherent before device access.
    fn sync_for_device(&self) -> (r: Result<(), crate::AccessError>)
        ensures
            r is Err ==> r->Err_0 is Os,
    ;

    /// Make the given range coherent before device access.
    fn sync_for_device_with_range(
        &self,
        sync_offset: usize,
        sync_size: usize,
        sync_direction: u32,
        sync_for_device: u32,
    ) -> (r: Result<(), crate::AccessError>)
        ensures
            r is Err ==> r->Err_0 is Os,
    ;
}

/// A region bound to an element width: the width tag `U` carries no run-time
/// state, but fixes how register indices are scaled (`reg` addresses the
/// bytes at `reg * size_of::<U>()`).
pub struct MemAccessor<T: MemRegion, U> {
    pub region: T,
    pub phantom: PhantomData<U>,
}

impl<T: MemRegion, U> MemAccessor<T, U> {
    pub open spec fn wf(&self) -> bool {
        self.region.wf()
    }

    pub open spec fn spec_region(&self) -> T {
        self.region
    }

    pub fn new(region: T) -> (r: Self)
        ensures
            r.spec_region() == region,
    {
        MemAccessor { region, phantom: PhantomData }
    }

    pub fn region(&self) -> (r: &T)
        ensures
            *r == self.spec_region(),
    {
        &self.region
    }

    pub fn region_mut(&mut self) -> (r: &mut T)
        ensures
            *r == old(self).spec_region(),
            final(self).spec_region() == *final(r),
    {
        &mut self.region
    }

    /// Narrow the accessor and re-tag it with the element width `NewU`.
    pub fn subclone_<NewU>(&self, offset: usize, size: usize) -> (r: MemAccessor<T, NewU>)
        requires
            self.wf(),
            self.spec_region().subclone_ok(offset, size),
        ensures
            subregion_of(&r.spec_region(), &self.spec_region(), offset, size),
    {
        MemAccessor::<T, NewU>::new(self.region.subclone(offset, size))
    }

    pub fn subclone8(&self, offset: usize, size: usize) -> (r: MemAccessor<T, u8>)
        requires
            self.wf(),
            self.spec_region().subclone_ok(offset, size),
        ensures
            subregion_of(&r.spec_region(), &self.spec_region(), offset, size),
    {
        self.subclone_::<u8>(offset, size)
    }

    pub fn subclone16(&self, offset: usize, size: usize) -> (r: MemAccessor<T, u16>)
        requires
            self.wf(),
            self.spec_region().subclone_ok(offset, size),
        ensures
            subregion_of(&r.spec_region(), &self.spec_region(), offset, size),
    {
        self.subclone_::<u16>(offset, size)
    }

    pub fn subclone32(&self, offset: usize, size: usize) -> (r: MemAccessor<T, u32>)
        requires
            self.wf(),
            self.spec_region().subclone_ok(offset, size),
        ensures
            subregion_of(&r.spec_region(), &self.spec_region(), offset, size),
    {
        self.subclone_::<u32>(offset, size)
    }

    pub fn subclone64(&self, offset: usize, size: usize) -> (r: MemAccessor<T, u64>)
        requires
            self.wf(),
            self.spec_region().subclone_ok(offset, size),
        ensures
            subregion_of(&r.spec_region(), &self.spec_region(), offset, size),
    {
        self.subclone_::<u64>(offset, size)
    }

    pub fn addr(&self) -> (r: usize)
        requires
            self.wf(),
        ensures
            r == self.spec_region().spec_addr(),
    {
        self.region.addr()
    }

    pub fn size(&self) -> (r: usize)
        requires
            self.wf(),
        ensures
            r == self.spec_region().spec_size(),
    {
        self.region.size()
    }

    pub fn phys_addr(&self) -> (r: usize)
        requires
            self.wf(),
        ensures
            r == self.spec_region().spec_phys_addr(),
    {
        self.region.phys_addr()
    }

    /// The byte offset of register `reg` under this accessor's element
    /// width: `reg * size_of::<U>()`, handed out exactly when the whole
    /// element lies inside the region. Raw memory operations a caller builds
    /// over a mapped region take their offsets from here, already scaled and
    /// bounds-checked.
    pub fn reg_offset(&self, reg: usize) -> (r: Option<usize>)
        requires
            self.wf(),
        ensures
            r is Some <==> reg * vstd::layout::size_of::<U>() + vstd::layout::size_of::<U>()
                <= self.spec_region().spec_size(),
            r is Some ==> r->0 == reg * vstd::layout::size_of::<U>(),
    {
        let sz = self.size();
        let w = core::mem::size_of::<U>();
        match reg.checked_mul(w) {
            Some(off) => match off.checked_add(w) {
                Some(end) => if end <= sz {
                    Some(off)
                } else {
                    None
                },
                None => None,
            },
            None => None,
        }
    }
}

impl<T: MemRegion + Clone, U> Clone for MemAccessor<T, U> {
    /// A clone carries a clone of the region, whatever `T`'s clone gives.
    fn clone(&self) -> (r: Self)
        ensures
            vstd::pervasive::cloned::<T>(self.region, r.region),
    {
        MemAccessor { region: self.region.clone(), phantom: PhantomData }
    }
}

impl<T: MemRegion, U> MemAccessBase for MemAccessor<T, U> {
    open spec fn acc_wf(&self) -> bool {
        self.wf()
    }

    open spec fn acc_addr(&self) -> int {
        self.spec_region().spec_addr()
    }

    open spec fn acc_size(&self) -> int {
        self.spec_region().spec_size()
    }

    open spec fn acc_phys_addr(&self) -> int {
        self.spec_region().spec_phys_addr()
    }

    open spec fn acc_subclone_ok(&self, offset: usize, size: usize) -> bool {
        self.spec_region().subclone_ok(offset, size)
    }

    open spec fn spec_reg_size() -> nat {
        vstd::layout::size_of::<U>()
    }

    fn reg_size() -> (r: usize) {
        core::mem::size_of::<U>()
    }

    fn subclone(&self, offset: usize, size: usize) -> (r: Self) {
        self.subclone_::<U>(offset, size)
    }
}

} // verus!
