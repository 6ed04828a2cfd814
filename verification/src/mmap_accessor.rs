use vstd::prelude::*;
use std::sync::Arc;
use crate::AccessError;
use crate::mem_accessor::{MemAccessBase, MemAccessor, MemRegion, subregion_of};
use crate::sys::{arc_clone, fd_poll_in, fd_read_chunk, fd_write};

verus! {

// The mapped-file backend. Establishing and releasing the mapping itself is
// an `mmap`/`munmap` syscall through a raw pointer, which Verus refuses; the
// caller performs it, hands the result in as plain values, and releases the
// pages. Everything else — the shared handle, narrowing, and buffered I/O
// through the descriptor — lives here.
/// One established memory mapping: the base address and size the kernel
/// returned, and the descriptor of the file it was mapped from. A region and
/// every region derived from it share one handle by reference count; when
/// the last of them drops it, the handle closes the descriptor. Releasing
/// the mapped pages themselves is the mapping establisher's part: it must
/// keep them mapped while any sharer of the handle is alive.
///
/// The handle holds no guarded in-process state: buffered I/O goes straight
/// through the descriptor, whose file offset the kernel keeps and
/// serializes, so sharers need no lock of their own around it.
pub struct MmapHandle {
    pub fd: i32,
    pub addr: usize,
    pub size: usize,
}

impl Drop for MmapHandle {
    /// Close the descriptor exactly once, when the last owning reference —
    /// the parent region or any region derived from it — is gone.
    fn drop(&mut self)
        opens_invariants none
        no_unwind
    {
        crate::sys::fd_close(self.fd);
    }
}

/// A view into a mapped file: a sub-span of the mapping held by `mfile`.
/// Every region derived from this one shares the same handle.
pub struct MmapRegion {
    pub mfile: Arc<MmapHandle>,
    pub addr: usize,
    pub size: usize,
}

impl MmapRegion {
    /// Wrap the mapping `(addr, size)`, established by the caller over the
    /// open descriptor `fd`, as a region covering all of it.
    pub fn new(fd: i32, addr: usize, size: usize) -> (r: Self)
        requires
            addr + size <= usize::MAX,
        ensures
            r.wf(),
            r.spec_addr() == addr,
            r.spec_size() == size,
            r.spec_phys_addr() == addr,
            r.mfile.fd == fd,
    {
        MmapRegion { mfile: Arc::new(MmapHandle { fd, addr, size }), addr, size }
    }

    /// Buffered write through the underlying file descriptor (not through the
    /// mapped view). At most `data.len()` bytes are consumed.
    pub fn write(&mut self, data: &[u8]) -> (r: Result<usize, AccessError>)
        ensures
            *final(self) == *old(self),
            r is Ok ==> r->Ok_0 <= data@.len(),
            r is Err ==> r->Err_0 is Os,
    {
        match fd_write(self.mfile.fd, data) {
            Ok(n) => Ok(n),
            Err(e) => Err(AccessError::Os(e)),
        }
    }

    /// Buffered read of up to `n` bytes through the underlying file
    /// descriptor.
    pub fn read(&mut self, n: usize) -> (r: Result<Vec<u8>, AccessError>)
        ensures
            *final(self) == *old(self),
            r is Ok ==> r->Ok_0@.len() <= n,
            r is Err ==> r->Err_0 is Os,
    {
        match fd_read_chunk(self.mfile.fd, n) {
            Ok(buf) => Ok(buf),
            Err(e) => Err(AccessError::Os(e)),
        }
    }

    /// Readiness check on the underlying file descriptor: true when a read
    /// would not block, false on timeout.
    pub fn poll(&self, timeout_ms: i32) -> (r: Result<bool, AccessError>)
        ensures
            r is Err ==> r->Err_0 is Os,
    {
        match fd_poll_in(self.mfile.fd, timeout_ms) {
            Ok(n) => Ok(n > 0),
            Err(e) => Err(AccessError::Os(e)),
        }
    }
}

impl MemRegion for MmapRegion {
    /// The span lies inside the mapping that `mfile` keeps alive.
    open spec fn wf(&self) -> bool {
        &&& self.mfile.addr + self.mfile.size <= usize::MAX
        &&& self.mfile.addr <= self.addr
        &&& self.addr + self.size <= self.mfile.addr + self.mfile.size
    }

    open spec fn spec_addr(&self) -> int {
        self.addr as int
    }

    open spec fn spec_size(&self) -> int {
        self.size as int
    }

    open spec fn spec_phys_addr(&self) -> int {
        self.addr as int
    }

    open spec fn subclone_ok(&self, offset: usize, size: usize) -> bool {
        &&& offset < self.size
        &&& size == 0 || offset + size <= self.size
    }

    fn subclone(&self, offset: usize, size: usize) -> (r: Self)
        ensures
            r.mfile == self.mfile,
    {
        let new_addr = self.addr + offset;
        let new_size = self.size - offset;
        let new_size = if size == 0 {
            new_size
        } else {
            size
        };
        MmapRegion { mfile: arc_clone(&self.mfile), addr: new_addr, size: new_size }
    }

    fn addr(&self) -> usize {
        self.addr
    }

    fn size(&self) -> usize {
        self.size
    }

    fn phys_addr(&self) -> usize {
        self.addr
    }
}

impl Clone for MmapRegion {
    /// A clone is the same view, sharing the same mapping handle.
    fn clone(&self) -> (r: Self)
        ensures
            r == *self,
    {
        MmapRegion { mfile: arc_clone(&self.mfile), addr: self.addr, size: self.size }
    }
}

/// An accessor over a mapped-file region of element width `U`.
pub struct MmapAccessor<U> {
    pub accessor: MemAccessor<MmapRegion, U>,
}

impl<U> MmapAccessor<U> {
    pub open spec fn wf(&self) -> bool {
        self.accessor.wf()
    }

    pub open spec fn spec_region(&self) -> MmapRegion {
        self.accessor.spec_region()
    }

    /// Wrap the caller-established mapping `(addr, size)` over `fd` in a
    /// width-`U` accessor.
    pub fn new(fd: i32, addr: usize, size: usize) -> (r: Self)
        requires
            addr + size <= usize::MAX,
        ensures
            r.wf(),
            r.spec_region().spec_addr() == addr,
            r.spec_region().spec_size() == size,
            r.spec_region().spec_phys_addr() == addr,
            r.spec_region().mfile.fd == fd,
    {
        MmapAccessor { accessor: MemAccessor::<MmapRegion, U>::new(MmapRegion::new(fd, addr, size)) }
    }

    /// Narrow the accessor and re-tag it with the element width `NewU`. The
    /// derived accessor shares the parent's mapping handle.
    pub fn subclone_<NewU>(&self, offset: usize, size: usize) -> (r: MmapAccessor<NewU>)
        requires
            self.wf(),
            self.spec_region().subclone_ok(offset, size),
        ensures
            subregion_of(&r.spec_region(), &self.spec_region(), offset, size),
            r.spec_region().mfile == self.spec_region().mfile,
    {
        MmapAccessor::<NewU> {
            accessor: MemAccessor::<MmapRegion, NewU>::new(self.accessor.region().subclone(offset, size)),
        }
    }

    pub fn subclone8(&self, offset: usize, size: usize) -> (r: MmapAccessor<u8>)
        requires
            self.wf(),
            self.spec_region().subclone_ok(offset, size),
        ensures
            subregion_of(&r.spec_region(), &self.spec_region(), offset, size),
            r.spec_region().mfile == self.spec_region().mfile,
    {
        self.subclone_::<u8>(offset, size)
    }

    pub fn subclone16(&self, offset: usize, size: usize) -> (r: MmapAccessor<u16>)
        requires
            self.wf(),
            self.spec_region().subclone_ok(offset, size),
        ensures
            subregion_of(&r.spec_region(), &self.spec_region(), offset, size),
            r.spec_region().mfile == self.spec_region().mfile,
    {
        self.subclone_::<u16>(offset, size)
    }

    pub fn subclone32(&self, offset: usize, size: usize) -> (r: MmapAccessor<u32>)
        requires
            self.wf(),
            self.spec_region().subclone_ok(offset, size),
        ensures
            subregion_of(&r.spec_region(), &self.spec_region(), offset, size),
            r.spec_region().mfile == self.spec_region().mfile,
    {
        self.subclone_::<u32>(offset, size)
    }

    pub fn subclone64(&self, offset: usize, size: usize) -> (r: MmapAccessor<u64>)
        requires
            self.wf(),
            self.spec_region().subclone_ok(offset, size),
        ensures
            subregion_of(&r.spec_region(), &self.spec_region(), offset, size),
            r.spec_region().mfile == self.spec_region().mfile,
    {
        self.subclone_::<u64>(offset, size)
    }

    pub fn addr(&self) -> (r: usize)
        requires
            self.wf(),
        ensures
            r == self.spec_region().spec_addr(),
    {
        self.accessor.addr()
    }

    pub fn size(&self) -> (r: usize)
        requires
            self.wf(),
        ensures
            r == self.spec_region().spec_size(),
    {
        self.accessor.size()
    }

    pub fn phys_addr(&self) -> (r: usize)
        requires
            self.wf(),
        ensures
            r == self.spec_region().spec_phys_addr(),
    {
        self.accessor.phys_addr()
    }
}

impl<U> Clone for MmapAccessor<U> {
    /// A clone is the same view, sharing the same mapping handle.
    fn clone(&self) -> (r: Self)
        ensures
            r.spec_region() == self.spec_region(),
    {
        MmapAccessor {
            accessor: MemAccessor {
                region: self.accessor.region.clone(),
                phantom: core::marker::PhantomData,
            },
        }
    }
}

impl<U> MemAccessBase for MmapAccessor<U> {
    open spec fn acc_wf(&self) -> bool {
        self.wf()
    }

    open spec fn acc_addr(&self) -> int {
        self.spec_region().spec_addr()
    }

    open spec fn acc_size(&self) -> int {
        self.spec_region().spec_size()
    }

    open spec fn acc_phys_addr(&self) -> int {
        self.spec_region().spec_phys_addr()
    }

    open spec fn acc_subclone_ok(&self, offset: usize, size: usize) -> bool {
        self.spec_region().subclone_ok(offset, size)
    }

    open spec fn spec_reg_size() -> nat {
        vstd::layout::size_of::<U>()
    }

    fn reg_size() -> (r: usize) {
        core::mem::size_of::<U>()
    }

    fn subclone(&self, offset: usize, size: usize) -> (r: Self) {
        self.subclone_::<U>(offset, size)
    }
}

} // verus!
