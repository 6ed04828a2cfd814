use jelly_mem_access::mem_accessor::{MemAccessBase, MemAccessor, MemRegion};
use jelly_mem_access::mmap_accessor::{MmapAccessor, MmapRegion};
use jelly_mem_access::mmio_accessor::{mmio_accesor_new, MmioAccessor, MmioRegion};
use jelly_mem_access::phys_accessor::{PhysAccessor, PhysRegion};
use jelly_mem_access::uio_accessor::{UioAccessor, UioRegion};

#[test]
fn mmio_region_subclone_rest_of_region() {
    let r = MmioRegion::new(0x1000, 0x100);
    let s = r.subclone(8, 0);
    assert_eq!(s.addr(), 0x1008);
    assert_eq!(s.size(), 0xF8);
    assert_eq!(s.phys_addr(), 0x1008);
}

#[test]
fn mmio_region_subclone_explicit_size() {
    let r = MmioRegion::new(0x1000, 0x100);
    let s = r.subclone(0x10, 0x20);
    assert_eq!(s.addr(), 0x1010);
    assert_eq!(s.size(), 0x20);
}

#[test]
fn mmio_accessor_subclone_chain() {
    let acc = MmioAccessor::<u32>::new(0xA000_0000, 0x2000);
    assert_eq!(acc.addr(), 0xA000_0000);
    assert_eq!(acc.size(), 0x2000);
    assert_eq!(acc.phys_addr(), 0xA000_0000);
    let sub = acc.subclone32(0x800, 0);
    assert_eq!(sub.addr(), 0xA000_0800);
    assert_eq!(sub.size(), 0x1800);
    let sub2 = sub.subclone8(0x40, 0x10);
    assert_eq!(sub2.addr(), 0xA000_0840);
    assert_eq!(sub2.size(), 0x10);
}

#[test]
fn mmio_accesor_new_builds_generic_accessor() {
    let acc = mmio_accesor_new::<u32>(0x4000_0000, 0x1000);
    assert_eq!(acc.region().addr(), 0x4000_0000);
    assert_eq!(acc.region().size(), 0x1000);
}

#[test]
fn accessor_reg_size_matches_width() {
    assert_eq!(<MmioAccessor<u8> as MemAccessBase>::reg_size(), 1);
    assert_eq!(<MmioAccessor<u16> as MemAccessBase>::reg_size(), 2);
    assert_eq!(<MmioAccessor<u32> as MemAccessBase>::reg_size(), 4);
    assert_eq!(<MmioAccessor<u64> as MemAccessBase>::reg_size(), 8);
    assert_eq!(
        <MemAccessor<MmioRegion, u32> as MemAccessBase>::reg_size(),
        4
    );
}

#[test]
fn accessor_base_subclone_keeps_width() {
    let acc = MmioAccessor::<u16>::new(0x1000, 0x100);
    let sub = MemAccessBase::subclone(&acc, 0x10, 0);
    assert_eq!(sub.addr(), 0x1010);
    assert_eq!(sub.size(), 0xF0);
    assert_eq!(<MmioAccessor<u16> as MemAccessBase>::reg_size(), 2);
}

#[test]
fn mem_accessor_region_access() {
    let mut acc = MemAccessor::<MmioRegion, u32>::new(MmioRegion::new(0x2000, 0x80));
    assert_eq!(acc.region().addr(), 0x2000);
    assert_eq!(acc.region_mut().size(), 0x80);
    let sub = acc.subclone_::<u64>(0x40, 0);
    assert_eq!(sub.addr(), 0x2040);
    assert_eq!(sub.size(), 0x40);
    let sub16 = acc.subclone16(0x20, 0x10);
    assert_eq!(sub16.addr(), 0x2020);
    assert_eq!(sub16.size(), 0x10);
}

#[test]
fn phys_region_is_fixed() {
    let r = PhysRegion::<0x4000_0000, 0x1000>::new();
    assert_eq!(r.addr(), 0x4000_0000);
    assert_eq!(r.size(), 0x1000);
    assert_eq!(r.phys_addr(), 0x4000_0000);
    let s = r.subclone(0, 0);
    assert_eq!(s.addr(), 0x4000_0000);
    assert_eq!(s.size(), 0x1000);
}

#[test]
fn phys_accessor_retags_width() {
    let acc = PhysAccessor::<u32, 0x8000_0000, 0x400>::new();
    assert_eq!(acc.addr(), 0x8000_0000);
    assert_eq!(acc.size(), 0x400);
    let as8 = acc.subclone8(0, 0);
    assert_eq!(as8.addr(), 0x8000_0000);
    assert_eq!(as8.size(), 0x400);
    let whole = acc.subclone64(0, 0x400);
    assert_eq!(whole.size(), 0x400);
}

#[test]
fn mmap_region_subclone_shares_handle() {
    let r = MmapRegion::new(-1, 0x7000_0000, 0x1000);
    assert_eq!(std::sync::Arc::strong_count(&r.mfile), 1);
    let s = r.subclone(0x100, 0);
    assert_eq!(std::sync::Arc::strong_count(&r.mfile), 2);
    assert_eq!(s.addr(), 0x7000_0100);
    assert_eq!(s.size(), 0xF00);
    assert_eq!(s.mfile.addr, 0x7000_0000);
    assert_eq!(s.mfile.fd, -1);
    drop(r);
    // the derived view keeps the mapping handle alive on its own
    assert_eq!(std::sync::Arc::strong_count(&s.mfile), 1);
    assert_eq!(s.addr(), 0x7000_0100);
}

#[test]
fn mmap_region_clone_is_same_view() {
    let r = MmapRegion::new(-1, 0x6000_0000, 0x800);
    let c = r.clone();
    assert_eq!(c.addr(), r.addr());
    assert_eq!(c.size(), r.size());
    assert_eq!(std::sync::Arc::strong_count(&r.mfile), 2);
}

#[test]
fn mmap_accessor_geometry() {
    let acc = MmapAccessor::<u64>::new(-1, 0x5000_0000, 0x2000);
    assert_eq!(acc.addr(), 0x5000_0000);
    assert_eq!(acc.size(), 0x2000);
    assert_eq!(acc.phys_addr(), 0x5000_0000);
    let sub = acc.subclone32(0x1000, 0);
    assert_eq!(sub.addr(), 0x5000_1000);
    assert_eq!(sub.size(), 0x1000);
    assert_eq!(sub.accessor.region().mfile.fd, -1);
}

#[test]
fn reg_offset_scales_by_the_width_tag() {
    let acc = MemAccessor::<MmioRegion, u32>::new(MmioRegion::new(0x1000, 0x100));
    assert_eq!(acc.reg_offset(0), Some(0));
    assert_eq!(acc.reg_offset(2), Some(8));
    assert_eq!(acc.reg_offset(63), Some(252));
    assert_eq!(acc.reg_offset(64), None);
    let acc64 = MemAccessor::<MmioRegion, u64>::new(MmioRegion::new(0x1000, 0x100));
    assert_eq!(acc64.reg_offset(2), Some(16));
    assert_eq!(acc64.reg_offset(31), Some(248));
    assert_eq!(acc64.reg_offset(32), None);
    assert_eq!(acc64.reg_offset(usize::MAX), None);
}

#[test]
fn clones_preserve_the_view() {
    let r = MmioRegion::new(0x3000, 0x40).clone();
    assert_eq!(r.addr(), 0x3000);
    assert_eq!(r.size(), 0x40);
    let acc = MmioAccessor::<u32>::new(0x1000, 0x100).clone();
    assert_eq!(acc.addr(), 0x1000);
    assert_eq!(acc.size(), 0x100);
    let gen = MemAccessor::<MmioRegion, u16>::new(MmioRegion::new(0x2000, 0x80)).clone();
    assert_eq!(gen.region().addr(), 0x2000);
    let phys = PhysAccessor::<u8, 0x8000_0000, 0x400>::new().clone();
    assert_eq!(phys.addr(), 0x8000_0000);
    let mm = MmapAccessor::<u32>::new(-1, 0x5000_0000, 0x2000).clone();
    assert_eq!(mm.addr(), 0x5000_0000);
    assert_eq!(mm.accessor.region().mfile.fd, -1);
}

#[test]
fn uio_region_tracks_physical_address() {
    let mr = MmapRegion::new(-1, 0x7100_0000, 0x1000);
    let u = UioRegion::new(mr, 0x4360_0000);
    assert_eq!(u.addr(), 0x7100_0000);
    assert_eq!(u.size(), 0x1000);
    assert_eq!(u.phys_addr(), 0x4360_0000);
    let s = u.subclone(0x800, 0);
    assert_eq!(s.addr(), 0x7100_0800);
    assert_eq!(s.size(), 0x800);
    assert_eq!(s.phys_addr(), 0x4360_0800);
}

#[test]
fn uio_accessor_geometry() {
    let mr = MmapRegion::new(-1, 0x7100_0000, 0x1000);
    let u = UioRegion::new(mr, 0x4360_0000);
    let acc = UioAccessor::<u32>::new(u);
    let sub = acc.subclone32(8, 0);
    assert_eq!(sub.addr(), 0x7100_0008);
    assert_eq!(sub.phys_addr(), 0x4360_0008);
    assert_eq!(sub.size(), 0xFF8);
}
