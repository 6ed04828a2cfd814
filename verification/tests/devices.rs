use jelly_mem_access::mem_buffer::MemBuffer;
use jelly_mem_access::mmap_accessor::MmapRegion;
use jelly_mem_access::udmabuf_accessor::{
    read_size, read_sync_mode, sync_arg_bytes, write_sync_for_cpu_with_range, write_sync_mode,
    UdmabufAccessor, UdmabufRegion,
};
use jelly_mem_access::uio_accessor::{
    decode_irq_count, irq_enable_bytes, parse_uio_entries, parse_uio_entry, select_uio_by_name,
    UioAccessor, UioRegion,
};
use jelly_mem_access::text::parse_hex_usize;
use jelly_mem_access::AccessError;
use nix::fcntl::OFlag;
use nix::sys::stat::Mode;

fn open_fd(path: &str, flags: OFlag) -> i32 {
    nix::fcntl::open(path, flags, Mode::empty()).expect("open device node")
}

#[test]
fn sync_arg_encodes_offset_high_and_flags_low() {
    // offset in the upper 32 bits; (size & !0xF) | (direction << 2) | flag below
    assert_eq!(sync_arg_bytes(0, 4096, 0, 1), b"0x0000000000001001".to_vec());
    assert_eq!(
        sync_arg_bytes(0x1234_5678, 0x1007, 3, 1),
        b"0x123456780000100D".to_vec()
    );
    // a size with only its low nibble set is cleared entirely
    assert_eq!(sync_arg_bytes(0, 0xF, 0, 0), b"0x0000000000000000".to_vec());
    // only the low 32 bits of the offset are kept
    assert_eq!(
        sync_arg_bytes(0x1_0000_0002, 16, 0, 1),
        b"0x0000000200000011".to_vec()
    );
}

#[test]
fn sync_arg_digits_denote_offset_and_word() {
    // the sixteen digits after `0x` denote offset_low * 2^32 + word
    let text = sync_arg_bytes(0x1234_5678, 0x1007, 3, 1);
    assert_eq!(parse_hex_usize(&text[2..]), Some(0x1234_5678_0000_100D));
    let zero = sync_arg_bytes(0, 0, 0, 0);
    assert_eq!(parse_hex_usize(&zero[2..]), Some(0));
}

#[test]
fn udmabuf_sysfs_reads_fail_without_device() {
    assert_eq!(
        read_sync_mode("no_such_device_zz", "no_such_module_zz"),
        Err(AccessError::Os(2))
    );
    assert_eq!(
        read_size("no_such_device_zz", "no_such_module_zz"),
        Err(AccessError::Os(2))
    );
}

#[test]
fn udmabuf_sysfs_writes_fail_without_device() {
    assert_eq!(
        write_sync_mode("no_such_device_zz", "no_such_module_zz", 1),
        Err(AccessError::Os(2))
    );
    assert_eq!(
        write_sync_for_cpu_with_range("no_such_device_zz", "no_such_module_zz", 0, 4096, 0, 1),
        Err(AccessError::Os(2))
    );
}

#[test]
fn udmabuf_numbered_device_name() {
    assert_eq!(UdmabufRegion::numbered_device_name(0), "udmabuf0".to_owned());
    assert_eq!(UdmabufRegion::numbered_device_name(12), "udmabuf12".to_owned());
}

#[test]
fn udmabuf_accessor_attr_methods_report_missing_device() {
    let mr = MmapRegion::new(-1, 0x7300_0000, 4096);
    let region = UdmabufRegion::new(
        mr,
        0xBEEF_0000,
        "no_such_device_zz".to_owned(),
        "no_such_module_zz".to_owned(),
    );
    let acc = UdmabufAccessor::<u32>::new(region);
    assert_eq!(acc.read_sync_mode(), Err(AccessError::Os(2)));
    assert_eq!(acc.write_sync_for_cpu(), Err(AccessError::Os(2)));
    assert_eq!(acc.read_phys_addr(), Err(AccessError::Os(2)));
}

#[test]
fn udmabuf_scenario_physical_address_and_pattern() {
    let mr = MmapRegion::new(-1, 0x7200_0000, 4096);
    let region = UdmabufRegion::new(
        mr,
        0xBEEF_0000,
        "udmabuf0".to_owned(),
        "u-dma-buf".to_owned(),
    );
    let acc = UdmabufAccessor::<u32>::new(region);
    assert_eq!(acc.size(), 4096);
    assert_eq!(acc.phys_addr(), 0xBEEF_0000);
    let sub = acc.subclone32(8, 0);
    assert_eq!(sub.phys_addr(), 0xBEEF_0008);
    let mut mem = MemBuffer::new(4096);
    mem.write_reg_u32(2, 0xDEAD_BEEF);
    let words = mem.copy_to_u32(0, 16);
    assert_eq!(words.len(), 16);
    for (i, w) in words.iter().enumerate() {
        if i == 2 {
            assert_eq!(*w, 0xDEAD_BEEF);
        } else {
            assert_eq!(*w, 0);
        }
    }
}

#[test]
fn udmabuf_region_clone_keeps_names_and_span() {
    let mr = MmapRegion::new(-1, 0x7900_0000, 4096);
    let region = UdmabufRegion::new(
        mr,
        0xBEEF_0000,
        "udmabuf0".to_owned(),
        "u-dma-buf".to_owned(),
    );
    let c = region.clone();
    assert_eq!(c.phys_addr, 0xBEEF_0000);
    assert_eq!(c.device_name, "udmabuf0".to_owned());
    assert_eq!(c.module_name, "u-dma-buf".to_owned());
    assert_eq!(std::sync::Arc::strong_count(&region.mmap_region.mfile), 2);
}

#[test]
fn uio_entry_numbers_parse_exactly() {
    assert_eq!(parse_uio_entry("uio0"), Some(0));
    assert_eq!(parse_uio_entry("uio12"), Some(12));
    assert_eq!(parse_uio_entry("uio"), None);
    assert_eq!(parse_uio_entry("uiox"), None);
    assert_eq!(parse_uio_entry("video0"), None);
    assert_eq!(parse_uio_entry(""), None);
}

#[test]
fn uio_selection_picks_smallest_matching_number() {
    let entries = vec![
        (0usize, "foo".to_owned()),
        (2usize, "target".to_owned()),
        (5usize, "target".to_owned()),
        (7usize, "bar".to_owned()),
    ];
    assert_eq!(select_uio_by_name(&entries, &"target".to_owned()), Some(2));
    assert_eq!(select_uio_by_name(&entries, &"bar".to_owned()), Some(7));
    assert_eq!(select_uio_by_name(&entries, &"tar".to_owned()), None);
    assert_eq!(select_uio_by_name(&entries, &"targets".to_owned()), None);
    let empty: Vec<(usize, String)> = Vec::new();
    assert_eq!(select_uio_by_name(&empty, &"target".to_owned()), None);
    // the answer does not depend on the order the listing came in
    let scrambled = vec![
        (9usize, "target".to_owned()),
        (4usize, "target".to_owned()),
        (6usize, "target".to_owned()),
    ];
    assert_eq!(select_uio_by_name(&scrambled, &"target".to_owned()), Some(4));
}

#[test]
fn uio_entry_lists_keep_numbers_in_order() {
    let names = vec![
        "uio3".to_owned(),
        "power".to_owned(),
        "uio1".to_owned(),
        "uiox".to_owned(),
        "uio12".to_owned(),
    ];
    assert_eq!(parse_uio_entries(&names), vec![3, 1, 12]);
    assert_eq!(parse_uio_entries(&Vec::new()), Vec::<usize>::new());
}

#[test]
fn irq_enable_flag_bytes() {
    assert_eq!(irq_enable_bytes(true), vec![1, 0, 0, 0]);
    assert_eq!(irq_enable_bytes(false), vec![0, 0, 0, 0]);
}

#[test]
fn irq_count_decoding() {
    assert_eq!(decode_irq_count(&[5, 0, 0, 0]), Ok(5));
    assert_eq!(decode_irq_count(&[0x78, 0x56, 0x34, 0x12]), Ok(0x1234_5678));
    assert_eq!(decode_irq_count(&[]), Err(AccessError::Os(0)));
    assert_eq!(decode_irq_count(&[1, 2]), Err(AccessError::Os(0)));
}

#[test]
fn uio_sysfs_reads_fail_without_device() {
    assert_eq!(UioRegion::read_name(999_999), Err(AccessError::Os(2)));
    assert_eq!(UioRegion::read_size(999_999), Err(AccessError::Os(2)));
    assert_eq!(UioRegion::read_phys_addr(999_999), Err(AccessError::Os(2)));
}

#[test]
fn uio_discovery_fails_without_class_directory() {
    assert!(UioRegion::find_uio_num_by_name("no_such_uio_device_zz").is_err());
}

#[test]
fn uio_irq_reads_through_descriptor() {
    // /dev/zero answers every 4-byte read with zeroes: the "interrupt count"
    let fd = open_fd("/dev/zero", OFlag::O_RDONLY);
    let mr = MmapRegion::new(fd, 0x7400_0000, 0x1000);
    let mut u = UioRegion::new(mr, 0x4000_0000);
    assert_eq!(u.peek_irq(0), Ok(true));
    assert_eq!(u.wait_irq(), Ok(0));
    assert_eq!(u.poll_irq(0), Ok(Some(0)));
}

#[test]
fn uio_irq_enable_writes_through_descriptor() {
    let fd = open_fd("/dev/null", OFlag::O_RDWR);
    let mr = MmapRegion::new(fd, 0x7500_0000, 0x1000);
    let mut u = UioRegion::new(mr, 0x4000_0000);
    assert_eq!(u.set_irq_enable(true), Ok(()));
    assert_eq!(u.set_irq_enable(false), Ok(()));
    // /dev/null answers reads with nothing at all, which is not a count
    assert_eq!(u.wait_irq(), Err(AccessError::Os(0)));
}

#[test]
fn uio_accessor_irq_delegation() {
    let fd = open_fd("/dev/zero", OFlag::O_RDONLY);
    let mr = MmapRegion::new(fd, 0x7600_0000, 0x1000);
    let u = UioRegion::new(mr, 0x4000_0000);
    let mut acc = UioAccessor::<u32>::new(u);
    assert_eq!(acc.peek_irq(0), Ok(true));
    assert_eq!(acc.wait_irq(), Ok(0));
    assert_eq!(acc.poll_irq(0), Ok(Some(0)));
}

#[test]
fn mmap_region_descriptor_io() {
    let fd = open_fd("/dev/zero", OFlag::O_RDONLY);
    let mut mr = MmapRegion::new(fd, 0x7700_0000, 0x1000);
    let buf = mr.read(4).expect("read zeroes");
    assert_eq!(buf, vec![0, 0, 0, 0]);
    let fd2 = open_fd("/dev/null", OFlag::O_RDWR);
    let mut mw = MmapRegion::new(fd2, 0x7800_0000, 0x1000);
    assert_eq!(mw.write(&[1, 2, 3]), Ok(3));
    assert_eq!(mw.poll(0), Ok(true));
}
