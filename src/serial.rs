//! The serial operations of the operation table.
//!
//! A single serial device exists, at index `SERIAL_DEVICE`; every other index
//! is an invalid device and never reaches the hardware. Outgoing text has its
//! line endings translated: every newline byte goes out preceded by a
//! carriage return.

use vstd::prelude::*;
use crate::uart::{enable_writes, rx_non_empty, tx_full, RegisterWrite, Uart, DATA_OFFSET};

verus! {

/// Index of the one serial device.
pub const SERIAL_DEVICE: u8 = 0;

/// Clock of the peripheral subsystem, which the baud-rate divider divides.
pub const PERIPHERAL_CLOCK: u32 = 25_000_000;

/// Baud rate the console is brought up at.
pub const BOOT_BAUD_RATE: u32 = 115_200;

/// Base address of the console UART.
pub const UART0_BASE: usize = 0x5930_3000;

/// Line feed.
pub const LF: u8 = 10;

/// Carriage return.
pub const CR: u8 = 13;

/// The recoverable outcomes that an operation reports to its caller.
#[derive(Clone, Copy, Debug, PartialEq, Eq, Structural)]
pub enum Error {
    /// No device has the given index.
    InvalidDevice,
    /// The capability is not present on this platform.
    Unimplemented,
    /// The caller's buffer or settings cannot be used; the code says why.
    UnsupportedConfiguration(u16),
}

/// The kind of a serial device.
#[derive(Clone, Copy, Debug, PartialEq, Eq, Structural)]
pub enum DeviceType {
    /// A UART with logic-level signals.
    TtlUart,
}

/// What the operation table tells about a serial device.
#[derive(Clone, Copy, Debug)]
pub struct DeviceInfo {
    pub name: &'static str,
    pub device_type: DeviceType,
}

/// The settings of a serial device that this platform honours.
///
/// Data bits, stop bits, parity and handshaking are accepted by the table and
/// ignored: the device always runs with its transmitter and receiver on.
#[derive(Clone, Copy, Debug, PartialEq, Eq, Structural)]
pub struct SerialConfig {
    pub data_rate_bps: u32,
}

/// Whether `device` names the serial device.
pub open spec fn valid_device(device: u8) -> bool {
    device == SERIAL_DEVICE
}

/// What one byte becomes on the wire.
pub open spec fn wire_of(b: u8) -> Seq<u8> {
    if b == LF {
        seq![CR, LF]
    } else {
        seq![b]
    }
}

/// `s` with a carriage return put before every line feed.
pub open spec fn crlf(s: Seq<u8>) -> Seq<u8>
    decreases s.len(),
{
    if s.len() == 0 {
        Seq::empty()
    } else {
        crlf(s.drop_last()) + wire_of(s.last())
    }
}

/// Without line feeds the translation changes nothing.
pub proof fn lemma_crlf_plain(s: Seq<u8>)
    requires
        forall|i: int| 0 <= i < s.len() ==> s[i] != LF,
    ensures
        crlf(s) == s,
    decreases s.len(),
{
    if s.len() > 0 {
        lemma_crlf_plain(s.drop_last());
        assert(crlf(s) =~= s);
    }
}

/// Translating a prefix one byte longer adds that byte's wire form.
pub proof fn lemma_crlf_step(s: Seq<u8>, i: int)
    requires
        0 <= i < s.len(),
    ensures
        crlf(s.take(i + 1)) == crlf(s.take(i)) + wire_of(s[i]),
{
    assert(s.take(i + 1).drop_last() =~= s.take(i));
}

/// The translation of a prefix is a prefix of the translation.
pub proof fn lemma_crlf_prefix(s: Seq<u8>, n: int)
    requires
        0 <= n <= s.len(),
    ensures
        crlf(s.take(n)).len() <= crlf(s).len(),
        crlf(s).take(crlf(s.take(n)).len() as int) == crlf(s.take(n)),
    decreases s.len() - n,
{
    if n == s.len() {
        assert(s.take(n) =~= s);
    } else {
        lemma_crlf_prefix(s, n + 1);
        lemma_crlf_step(s, n);
        let a = crlf(s.take(n));
        let b = crlf(s.take(n + 1));
        assert(crlf(s).take(a.len() as int) =~= b.take(a.len() as int));
        assert(b.take(a.len() as int) =~= a);
    }
}

/// How many leading bytes of `data` went out whole when the first `sent`
/// bytes of its translation reached the wire.
pub fn whole_bytes_sent(data: &[u8], sent: usize) -> (n: usize)
    ensures
        n <= data@.len(),
        crlf(data@.take(n as int)).len() <= sent,
        n < data@.len() ==> crlf(data@.take(n + 1)).len() > sent,
{
    let mut n: usize = 0;
    let mut w: usize = 0;
    let mut done = false;
    while n < data.len() && !done
        invariant
            n <= data@.len(),
            w == crlf(data@.take(n as int)).len(),
            w <= sent,
            done ==> n < data@.len() && crlf(data@.take(n + 1)).len() > sent,
        decreases data.len() - n + (if done { 0int } else { 1int }),
    {
        proof {
            lemma_crlf_step(data@, n as int);
        }
        let width: usize = if data[n] == LF { 2 } else { 1 };
        if sent - w >= width {
            w = w + width;
            n = n + 1;
        } else {
            done = true;
        }
    }
    n
}

/// The bytes that go on the wire for `data`.
pub fn expand_line_endings(data: &[u8]) -> (r: Vec<u8>)
    ensures
        r@ == crlf(data@),
{
    let mut r: Vec<u8> = Vec::new();
    let mut i: usize = 0;
    while i < data.len()
        invariant
            i <= data@.len(),
            r@ == crlf(data@.take(i as int)),
        decreases data.len() - i,
    {
        proof {
            lemma_crlf_step(data@, i as int);
        }
        if data[i] == LF {
            r.push(CR);
        }
        r.push(data[i]);
        i = i + 1;
    }
    assert(data@.take(data@.len() as int) =~= data@);
    r
}

/// Information about a serial device: the one device is a TTL UART named
/// `ser0`; any other index has none.
pub fn serial_get_info(device: u8) -> (r: Option<DeviceInfo>)
    ensures
        valid_device(device) <==> r is Some,
        r matches Some(info) ==> info.name@ == "ser0"@ && info.device_type == DeviceType::TtlUart,
{
    if device == SERIAL_DEVICE {
        Some(DeviceInfo { name: "ser0", device_type: DeviceType::TtlUart })
    } else {
        None
    }
}

/// Reconfigure a serial device: the stores that re-enable the console UART at
/// the requested rate. Only the rate is used.
pub fn serial_configure(uart: &Uart, device: u8, config: SerialConfig) -> (r: Result<
    Vec<RegisterWrite>,
    Error,
>)
    requires
        uart.wf(),
        config.data_rate_bps > 0,
    ensures
        valid_device(device) <==> r is Ok,
        r matches Ok(w) ==> w@ == enable_writes(
            uart.base_spec(),
            config.data_rate_bps,
            PERIPHERAL_CLOCK,
        ),
        r matches Err(e) ==> e == Error::InvalidDevice,
{
    if device == SERIAL_DEVICE {
        Ok(uart.enable(config.data_rate_bps, PERIPHERAL_CLOCK))
    } else {
        Err(Error::InvalidDevice)
    }
}

/// Write to a serial device: the bytes to send, in order, with line endings
/// translated. Sending them all reports the whole of `data` as written.
pub fn serial_write(device: u8, data: &[u8]) -> (r: Result<Vec<u8>, Error>)
    ensures
        valid_device(device) <==> r is Ok,
        r matches Ok(w) ==> w@ == crlf(data@),
        r matches Err(e) ==> e == Error::InvalidDevice,
{
    if device == SERIAL_DEVICE {
        Ok(expand_line_endings(data))
    } else {
        Err(Error::InvalidDevice)
    }
}

/// Read from a serial device into a buffer of `capacity` bytes, or into no
/// buffer at all: how many bytes to try to receive. Receiving stops early at
/// the first moment no byte is waiting.
pub fn serial_read(device: u8, capacity: Option<usize>) -> (r: Result<usize, Error>)
    ensures
        !valid_device(device) ==> r == Err::<usize, Error>(Error::InvalidDevice),
        valid_device(device) && capacity is None ==> r == Err::<usize, Error>(
            Error::UnsupportedConfiguration(0),
        ),
        valid_device(device) && capacity is Some ==> r == Ok::<usize, Error>(capacity->0),
{
    if device != SERIAL_DEVICE {
        return Err(Error::InvalidDevice);
    }
    match capacity {
        Some(n) => Ok(n),
        None => Err(Error::UnsupportedConfiguration(0)),
    }
}

/// The next thing to do while sending a run of wire bytes.
#[derive(Clone, Copy, Debug, PartialEq, Eq, Structural)]
pub enum SendStep {
    /// The transmitter is full: read the status again.
    Poll,
    /// Make this store, then go on with the next byte.
    Store(RegisterWrite),
    /// Every byte has been sent.
    Done,
}

/// Decide the next step of sending `wire`, when the bytes before `pos` have
/// gone out and the status register reads `status`.
pub fn send_step(uart: &Uart, wire: &[u8], pos: usize, status: u32) -> (r: SendStep)
    requires
        uart.wf(),
    ensures
        pos >= wire@.len() ==> r == SendStep::Done,
        pos < wire@.len() && tx_full(status) ==> r == SendStep::Poll,
        pos < wire@.len() && !tx_full(status) ==> r == SendStep::Store(
            RegisterWrite {
                addr: (uart.base_spec() + DATA_OFFSET) as usize,
                value: wire@[pos as int] as u32,
            },
        ),
{
    if pos >= wire.len() {
        return SendStep::Done;
    }
    match uart.write(status, wire[pos]) {
        Some(w) => SendStep::Store(w),
        None => SendStep::Poll,
    }
}

/// The next thing to do while receiving into a buffer.
#[derive(Clone, Copy, Debug, PartialEq, Eq, Structural)]
pub enum ReceiveStep {
    /// Load the data register at this address and put the byte at the next
    /// position of the buffer.
    Load(usize),
    /// Stop: the buffer is full or no byte is waiting.
    Done,
}

/// Decide the next step of receiving into a buffer of `capacity` bytes, when
/// `pos` bytes have been filled in and the status register reads `status`.
/// Receiving never waits for a byte.
pub fn receive_step(uart: &Uart, pos: usize, capacity: usize, status: u32) -> (r: ReceiveStep)
    requires
        uart.wf(),
    ensures
        pos >= capacity ==> r == ReceiveStep::Done,
        pos < capacity && !rx_non_empty(status) ==> r == ReceiveStep::Done,
        pos < capacity && rx_non_empty(status) ==> r == ReceiveStep::Load(
            (uart.base_spec() + DATA_OFFSET) as usize,
        ),
{
    if pos >= capacity {
        return ReceiveStep::Done;
    }
    match uart.read(status) {
        Some(addr) => ReceiveStep::Load(addr),
        None => ReceiveStep::Done,
    }
}

} // verus!
