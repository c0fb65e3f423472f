//! The operations of the table that are not serial I/O.
//!
//! The table's layout and version are fixed; capabilities this platform does
//! not have answer with a fixed "not implemented" outcome rather than doing
//! anything.

use vstd::prelude::*;
use crate::serial::Error;

verus! {

/// The table version this firmware implements: 0.6.1, packed as
/// `0x00_MM_mm_pp`.
pub const API_VERSION_NUMBER: u32 = 0x0000_0601;

/// A packed table version.
#[derive(Clone, Copy, Debug, PartialEq, Eq, Structural)]
pub struct Version(pub u32);

/// Relies on neotron_common_bios::API_VERSION, which that crate builds as
/// `Version::new(0, 6, 1)`, that is `u32::from_be_bytes([0, 0, 6, 1])`.
#[verifier::external_body]
fn common_api_version() -> (r: u32)
    ensures
        r == API_VERSION_NUMBER,
{
    neotron_common_bios::API_VERSION.0
}

/// The version of the table. The same value on every call.
pub fn api_version_get() -> (r: Version)
    ensures
        r == Version(API_VERSION_NUMBER),
{
    Version(common_api_version())
}

/// The kinds of memory a region can hold.
#[derive(Clone, Copy, Debug, PartialEq, Eq, Structural)]
pub enum MemoryKind {
    Ram,
    Other,
}

/// One contiguous range of memory the operating system may use.
#[derive(Clone, Copy, Debug, PartialEq, Eq, Structural)]
pub struct MemoryRegion {
    pub start: usize,
    pub length: usize,
    pub kind: MemoryKind,
}

/// Find out where a region of memory lies. Region 0 is the application RAM
/// that the link placed at `ram_start`, `ram_len` bytes long; this board has
/// no other region.
pub fn memory_get_region(region: u8, ram_start: usize, ram_len: usize) -> (r: Option<MemoryRegion>)
    ensures
        region == 0 ==> r == Some(
            MemoryRegion { start: ram_start, length: ram_len, kind: MemoryKind::Ram },
        ),
        region != 0 ==> r is None,
{
    if region == 0 {
        Some(MemoryRegion { start: ram_start, length: ram_len, kind: MemoryKind::Ram })
    } else {
        None
    }
}

/// An instant, as seconds since 2000-01-01T00:00:00Z and nanoseconds since
/// the last second began.
#[derive(Clone, Copy, Debug, PartialEq, Eq, Structural)]
pub struct Time {
    pub secs: u32,
    pub nsecs: u32,
}

/// The wall time. There is no clock on this board, so it is always the
/// epoch.
pub fn time_clock_get() -> (r: Time)
    ensures
        r == (Time { secs: 0, nsecs: 0 }),
{
    Time { secs: 0, nsecs: 0 }
}

/// Set the wall time. There is no clock to set, so nothing changes.
pub fn time_clock_set(_time: Time) {
}

/// The monotonic tick count. No timer runs, so it stays at zero.
pub fn time_ticks_get() -> (r: u64)
    ensures
        r == 0,
{
    0
}

/// Ticks per second of the monotonic counter: a 1 MHz timer.
pub fn time_ticks_per_second() -> (r: u64)
    ensures
        r == 1_000_000,
{
    1_000_000
}

/// Outcome of fetching the configuration block, given how many bytes its
/// encoding took in the caller's buffer, or `None` when there was no buffer
/// or the block did not fit.
pub fn configuration_get(encoded: Option<usize>) -> (r: Result<usize, Error>)
    ensures
        encoded matches Some(n) ==> r == Ok::<usize, Error>(n),
        encoded is None ==> r == Err::<usize, Error>(Error::UnsupportedConfiguration(0)),
{
    match encoded {
        Some(n) => Ok(n),
        None => Err(Error::UnsupportedConfiguration(0)),
    }
}

/// Store the configuration block. Nothing is kept, and the call succeeds.
pub fn configuration_set(_buffer: &[u8]) -> (r: Result<(), Error>)
    ensures
        r == Ok::<(), Error>(()),
{
    Ok(())
}

/// Whether a video mode is supported: none is.
pub fn video_is_valid_mode(_mode: u8) -> (r: bool)
    ensures
        !r,
{
    false
}

/// Whether a video mode needs more memory than the firmware has: no mode
/// does.
pub fn video_mode_needs_vram(_mode: u8) -> (r: bool)
    ensures
        !r,
{
    false
}

/// Switch video mode: no mode can be set.
pub fn video_set_mode(_mode: u8) -> (r: Result<(), Error>)
    ensures
        r == Err::<(), Error>(Error::UnsupportedConfiguration(0)),
{
    Err(Error::UnsupportedConfiguration(0))
}

/// The current video mode: mode 0.
pub fn video_get_mode() -> (r: u8)
    ensures
        r == 0,
{
    0
}

/// Point the display at another framebuffer: not implemented.
pub fn video_set_framebuffer(_addr: usize) -> (r: Result<(), Error>)
    ensures
        r == Err::<(), Error>(Error::Unimplemented),
{
    Err(Error::Unimplemented)
}

/// Wait for a video scan-line: there is no display to wait for.
pub fn video_wait_for_line(_line: u16) {
}

/// An input event.
#[derive(Clone, Copy, Debug, PartialEq, Eq, Structural)]
pub enum HidEvent {
    KeyPress(u8),
    KeyRelease(u8),
}

/// Poll for an input event. None ever arrives.
pub fn hid_get_event() -> (r: Result<Option<HidEvent>, Error>)
    ensures
        r == Ok::<Option<HidEvent>, Error>(None),
{
    Ok(None)
}

/// Set the keyboard LEDs: not implemented.
pub fn hid_set_leds(_leds: u8) -> (r: Result<(), Error>)
    ensures
        r == Err::<(), Error>(Error::Unimplemented),
{
    Err(Error::Unimplemented)
}

/// What the table tells about a block device.
#[derive(Clone, Copy, Debug, PartialEq, Eq, Structural)]
pub struct BlockDeviceInfo {
    pub block_size: u32,
    pub num_blocks: u64,
    pub removable: bool,
    pub media_present: bool,
}

/// Information about a block device: this board has none.
pub fn block_dev_get_info(_device: u8) -> (r: Option<BlockDeviceInfo>)
    ensures
        r is None,
{
    None
}

/// Write blocks: not implemented.
pub fn block_write(_device: u8, _block: u64, _num_blocks: u8, _data: &[u8]) -> (r: Result<
    (),
    Error,
>)
    ensures
        r == Err::<(), Error>(Error::Unimplemented),
{
    Err(Error::Unimplemented)
}

/// Read blocks: not implemented, and `data` is left as it was.
pub fn block_read(_device: u8, _block: u64, _num_blocks: u8, _data: &mut [u8]) -> (r: Result<
    (),
    Error,
>)
    ensures
        r == Err::<(), Error>(Error::Unimplemented),
        final(_data)@ == old(_data)@,
{
    Err(Error::Unimplemented)
}

/// Verify blocks: not implemented.
pub fn block_verify(_device: u8, _block: u64, _num_blocks: u8, _data: &[u8]) -> (r: Result<
    (),
    Error,
>)
    ensures
        r == Err::<(), Error>(Error::Unimplemented),
{
    Err(Error::Unimplemented)
}

/// Eject a block device: succeeds, as there is nothing to eject.
pub fn block_dev_eject(_device: u8) -> (r: Result<(), Error>)
    ensures
        r == Ok::<(), Error>(()),
{
    Ok(())
}

} // verus!
