//! What the firmware claims from the platform at boot.

use vstd::prelude::*;
use crate::mutex::{NeoMutex, NeoMutexGuard};
use crate::serial::{BOOT_BAUD_RATE, PERIPHERAL_CLOCK, UART0_BASE};
use crate::uart::{base_fits, enable_writes, RegisterWrite, Uart};

verus! {

/// Everything the firmware owns: the platform's core-peripheral token and the
/// console UART. Exactly one exists, built once at boot.
pub struct Hardware<P> {
    pub cp: P,
    pub uart0: Uart,
}

/// Why bringing the hardware up failed.
#[derive(Clone, Copy, Debug, PartialEq, Eq, Structural)]
pub enum SetupError {
    /// The core peripherals were already claimed.
    PeripheralsTaken,
}

/// The console UART driver, at its fixed address.
pub fn console_driver() -> (r: Uart)
    ensures
        r.base_spec() == UART0_BASE,
        r.wf(),
{
    proof {
        assert(base_fits(UART0_BASE));
    }
    Uart::new(UART0_BASE)
}

/// Bring the hardware up from the outcome of claiming the core peripherals:
/// set the console UART to the boot rate and keep the token. On success, the
/// stores that enable the UART come back with the hardware, to be made before
/// it is used. Without the token, setup fails.
pub fn hardware_setup<P>(claimed: Option<P>) -> (r: Result<(Hardware<P>, Vec<RegisterWrite>), SetupError>)
    ensures
        claimed is Some <==> r is Ok,
        r matches Ok((h, w)) ==> {
            &&& Some(h.cp) == claimed
            &&& h.uart0.base_spec() == UART0_BASE
            &&& h.uart0.wf()
            &&& w@ == enable_writes(UART0_BASE, BOOT_BAUD_RATE, PERIPHERAL_CLOCK)
        },
        r matches Err(e) ==> e == SetupError::PeripheralsTaken,
{
    let uart0 = console_driver();
    let writes = uart0.enable(BOOT_BAUD_RATE, PERIPHERAL_CLOCK);
    match claimed {
        Some(cp) => Ok((Hardware { cp, uart0 }, writes)),
        None => Err(SetupError::PeripheralsTaken),
    }
}

/// Why an operation could not reach the hardware. Both are faults of the
/// firmware itself, not of the caller.
#[derive(Clone, Copy, Debug, PartialEq, Eq, Structural)]
pub enum AccessError {
    /// The guard is already held: a guarded operation was entered again.
    Reentrant,
    /// Boot has not put the hardware behind the guard yet.
    NotSetUp,
}

/// Take the hardware-state guard for an operation on the console UART.
///
/// On success the guard stays held, with the hardware in it, until the caller
/// gives it back with `NeoMutex::unlock` once its register accesses are done.
/// A held guard is a reentrancy fault and is left held; an empty one is
/// released again at once.
pub fn acquire_console<P>(state: &mut NeoMutex<Option<Hardware<P>>>) -> (r: Result<
    (NeoMutexGuard<Option<Hardware<P>>>, Uart),
    AccessError,
>)
    requires
        old(state).wf(),
    ensures
        final(state).wf(),
        old(state).is_locked() ==> r == Err::<(NeoMutexGuard<Option<Hardware<P>>>, Uart), AccessError>(
            AccessError::Reentrant,
        ) && final(state)@ == old(state)@,
        old(state)@ == Some(None::<Hardware<P>>) ==> r == Err::<
            (NeoMutexGuard<Option<Hardware<P>>>, Uart),
            AccessError,
        >(AccessError::NotSetUp) && final(state)@ == old(state)@,
        old(state)@ matches Some(Some(h)) ==> final(state).is_locked() && (r matches Ok((g, u))
            && g@ == Some(h) && u == h.uart0),
{
    let g = match state.try_lock() {
        Ok(g) => g,
        Err(_) => {
            return Err(AccessError::Reentrant);
        },
    };
    let uart = match g.get() {
        Some(h) => h.uart0,
        None => {
            state.unlock(g);
            return Err(AccessError::NotSetUp);
        },
    };
    Ok((g, uart))
}

} // verus!
