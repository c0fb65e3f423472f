//! Register protocol of a CMSDK-style UART.
//!
//! The device has four 32-bit registers at fixed offsets from its base
//! address: data, status, control and baud-rate divider. The driver holds the
//! base address and nothing else: every piece of device state lives in the
//! registers. Its operations say which register to load or store next, given
//! what the registers read; whoever owns the register window carries the
//! accesses out, in order and without caching.

use vstd::prelude::*;

verus! {

/// Offset of the data register.
pub const DATA_OFFSET: usize = 0;

/// Offset of the status register.
pub const STATUS_OFFSET: usize = 4;

/// Offset of the control register.
pub const CONTROL_OFFSET: usize = 8;

/// Offset of the baud-rate divider register.
pub const BAUDDIV_OFFSET: usize = 16;

/// Status bit: the transmit buffer is full.
pub const STATUS_TX_FULL: u32 = 1;

/// Status bit: the receive buffer holds a byte.
pub const STATUS_RX_NON_EMPTY: u32 = 2;

/// Control word that turns on both the transmitter and the receiver.
pub const CONTROL_TX_RX_ENABLE: u32 = 3;

/// One store to a device register.
#[derive(Clone, Copy, Debug, PartialEq, Eq, Structural)]
pub struct RegisterWrite {
    pub addr: usize,
    pub value: u32,
}

/// Whether a status word says the transmitter cannot take a byte.
pub open spec fn tx_full(status: u32) -> bool {
    status & STATUS_TX_FULL != 0
}

/// Whether a status word says a received byte is waiting.
pub open spec fn rx_non_empty(status: u32) -> bool {
    status & STATUS_RX_NON_EMPTY != 0
}

/// The stores that turn a UART at `base` on: the divider
/// `clock / baudrate` first, then the control word.
pub open spec fn enable_writes(base: usize, baudrate: u32, clock: u32) -> Seq<RegisterWrite>
    recommends
        baudrate > 0,
{
    seq![
        RegisterWrite { addr: (base + BAUDDIV_OFFSET) as usize, value: (clock / baudrate) as u32 },
        RegisterWrite { addr: (base + CONTROL_OFFSET) as usize, value: CONTROL_TX_RX_ENABLE },
    ]
}

/// The whole register window of a device at `base` lies in the address space.
pub open spec fn base_fits(base: usize) -> bool {
    base + BAUDDIV_OFFSET <= usize::MAX
}

/// A driver for one UART at a fixed base address.
#[derive(Clone, Copy, Debug, PartialEq, Eq, Structural)]
pub struct Uart {
    base: usize,
}

impl Uart {
    /// The base address of the register window.
    pub closed spec fn base_spec(&self) -> usize {
        self.base
    }

    /// The register window fits in the address space.
    pub open spec fn wf(&self) -> bool {
        base_fits(self.base_spec())
    }

    /// A driver for the UART whose registers start at `base`.
    pub fn new(base: usize) -> (r: Uart)
        requires
            base_fits(base),
        ensures
            r.base_spec() == base,
            r.wf(),
    {
        Uart { base }
    }

    /// The base address of the register window.
    pub fn base(&self) -> (r: usize)
        ensures
            r == self.base_spec(),
    {
        self.base
    }

    /// Address of the data register.
    pub fn data_addr(&self) -> (r: usize)
        requires
            self.wf(),
        ensures
            r == self.base_spec() + DATA_OFFSET,
    {
        self.base + DATA_OFFSET
    }

    /// Address of the status register.
    pub fn status_addr(&self) -> (r: usize)
        requires
            self.wf(),
        ensures
            r == self.base_spec() + STATUS_OFFSET,
    {
        self.base + STATUS_OFFSET
    }

    /// Turn on transmit and receive at `baudrate`, for a device clocked at
    /// `system_clock`: the stores to make, in order.
    pub fn enable(&self, baudrate: u32, system_clock: u32) -> (r: Vec<RegisterWrite>)
        requires
            self.wf(),
            baudrate > 0,
        ensures
            r@ == enable_writes(self.base_spec(), baudrate, system_clock),
    {
        let divider: u32 = system_clock / baudrate;
        let mut r: Vec<RegisterWrite> = Vec::new();
        r.push(RegisterWrite { addr: self.base + BAUDDIV_OFFSET, value: divider });
        r.push(RegisterWrite { addr: self.base + CONTROL_OFFSET, value: CONTROL_TX_RX_ENABLE });
        r
    }

    /// One step of sending `byte`, given the status register.
    ///
    /// `None` while the transmitter is full: read the status again. Otherwise
    /// the store of the byte into the data register.
    pub fn write(&self, status: u32, byte: u8) -> (r: Option<RegisterWrite>)
        requires
            self.wf(),
        ensures
            tx_full(status) ==> r is None,
            !tx_full(status) ==> r == Some(
                RegisterWrite { addr: (self.base_spec() + DATA_OFFSET) as usize, value: byte as u32 },
            ),
    {
        if status & STATUS_TX_FULL != 0 {
            None
        } else {
            Some(RegisterWrite { addr: self.base + DATA_OFFSET, value: byte as u32 })
        }
    }

    /// Whether to load the data register, given the status register: only
    /// when a received byte is waiting. Never waits.
    pub fn read(&self, status: u32) -> (r: Option<usize>)
        requires
            self.wf(),
        ensures
            rx_non_empty(status) ==> r == Some((self.base_spec() + DATA_OFFSET) as usize),
            !rx_non_empty(status) ==> r is None,
    {
        if status & STATUS_RX_NON_EMPTY != 0 {
            Some(self.base + DATA_OFFSET)
        } else {
            None
        }
    }

    /// The received byte in a word loaded from the data register.
    pub fn received(data: u32) -> (r: u8)
        ensures
            r == data as u8,
    {
        data as u8
    }
}

} // verus!
