use virtio_net_dispatch::cmdline::{guestusize_to_str, mmio_device_cmdline};

#[test]
fn three_mebibytes_uses_the_m_unit() {
    assert_eq!(guestusize_to_str(0x30_0000), "3M");
}

#[test]
fn size_not_divisible_by_any_unit_is_raw_bytes() {
    assert_eq!(guestusize_to_str(0x10_0001), "1048577");
}

#[test]
fn each_unit_is_the_largest_that_divides() {
    assert_eq!(guestusize_to_str(1024), "1K");
    assert_eq!(guestusize_to_str(1 << 20), "1M");
    assert_eq!(guestusize_to_str(1 << 30), "1G");
    assert_eq!(guestusize_to_str(3 << 30), "3G");
    assert_eq!(guestusize_to_str(1536), "1536");
    assert_eq!(guestusize_to_str(2048), "2K");
    assert_eq!(guestusize_to_str((1 << 30) + (1 << 20)), "1025M");
}

#[test]
fn zero_size_formats_as_zero_g() {
    assert_eq!(guestusize_to_str(0), "0G");
}

#[test]
fn largest_size_is_raw_bytes() {
    assert_eq!(guestusize_to_str(u64::MAX), "18446744073709551615");
}

#[test]
fn cmdline_fragment_without_id() {
    assert_eq!(
        mmio_device_cmdline(0x1_0000, 0x30_0000, 5, None).unwrap(),
        "virtio_mmio.device=3M@0x10000:5"
    );
}

#[test]
fn cmdline_fragment_with_id() {
    assert_eq!(
        mmio_device_cmdline(0x1_0000, 0x30_0000, 5, Some(42)).unwrap(),
        "virtio_mmio.device=3M@0x10000:5:42"
    );
}

#[test]
fn cmdline_fragment_hex_base_uses_lowercase_digits() {
    assert_eq!(
        mmio_device_cmdline(0xdead_beef, 2048, 0, None).unwrap(),
        "virtio_mmio.device=2K@0xdeadbeef:0"
    );
}

#[test]
fn cmdline_fragment_raw_byte_size() {
    assert_eq!(
        mmio_device_cmdline(0x200, 0x10_0001, 11, None).unwrap(),
        "virtio_mmio.device=1048577@0x200:11"
    );
}

#[test]
fn cmdline_zero_window_is_refused() {
    assert!(mmio_device_cmdline(0x1_0000, 0, 5, None).is_none());
    assert!(mmio_device_cmdline(0, 0, 0, Some(1)).is_none());
}
