//! Hardware ownership and serial-port layer of a small firmware.
//!
//! The firmware owns one UART, a text framebuffer and a memory map, and hands
//! the operating system a fixed table of operations over them. This crate holds
//! the logic of that layer: the guard over the shared hardware state, the
//! register protocol of the UART, and the behaviour of each operation.

mod mutex;
pub mod uart;
pub mod serial;
pub mod loopback;
pub mod table;
pub mod hardware;

pub use mutex::{LockError, NeoMutex, NeoMutexGuard};
