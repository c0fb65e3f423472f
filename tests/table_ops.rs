use neotron_qemu_bios::serial::Error;
use neotron_qemu_bios::table::{
    api_version_get, block_dev_eject, block_dev_get_info, block_read, block_verify,
    block_write, configuration_get, configuration_set, hid_get_event, hid_set_leds,
    memory_get_region, time_clock_get, time_ticks_get, time_ticks_per_second,
    video_get_mode, video_is_valid_mode, video_mode_needs_vram, video_set_framebuffer,
    video_set_mode, MemoryKind, MemoryRegion, Time, Version,
};

#[test]
fn version_is_fixed() {
    let first = api_version_get();
    assert_eq!(first, Version(0x0000_0601));
    assert_eq!(api_version_get(), first);
    assert_eq!(first.0, neotron_common_bios::API_VERSION.0);
}

#[test]
fn region_zero_is_ram() {
    assert_eq!(
        memory_get_region(0, 0x2000_0000, 0x1_0000),
        Some(MemoryRegion { start: 0x2000_0000, length: 0x1_0000, kind: MemoryKind::Ram })
    );
    for region in 1..=255u8 {
        assert_eq!(memory_get_region(region, 0x2000_0000, 0x1_0000), None);
    }
}

#[test]
fn placeholders_report_fixed_outcomes() {
    assert_eq!(time_clock_get(), Time { secs: 0, nsecs: 0 });
    assert_eq!(time_ticks_get(), 0);
    assert_eq!(time_ticks_per_second(), 1_000_000);
    assert_eq!(configuration_set(b"abc"), Ok(()));
    assert!(!video_is_valid_mode(3));
    assert!(!video_mode_needs_vram(3));
    assert_eq!(video_set_mode(1), Err(Error::UnsupportedConfiguration(0)));
    assert_eq!(video_get_mode(), 0);
    assert_eq!(video_set_framebuffer(0x1000), Err(Error::Unimplemented));
    assert_eq!(hid_get_event(), Ok(None));
    assert_eq!(hid_set_leds(1), Err(Error::Unimplemented));
    assert_eq!(block_dev_get_info(0), None);
    assert_eq!(block_write(0, 0, 1, &[0; 512]), Err(Error::Unimplemented));
    let mut buf = [7u8; 4];
    assert_eq!(block_read(0, 0, 1, &mut buf), Err(Error::Unimplemented));
    assert_eq!(buf, [7; 4]);
    assert_eq!(block_verify(0, 0, 1, &[0; 512]), Err(Error::Unimplemented));
    assert_eq!(block_dev_eject(0), Ok(()));
}

#[test]
fn configuration_outcomes() {
    assert_eq!(configuration_get(Some(5)), Ok(5));
    assert_eq!(configuration_get(None), Err(Error::UnsupportedConfiguration(0)));
}
