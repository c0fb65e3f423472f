use neotron_qemu_bios::hardware::{
    acquire_console, console_driver, hardware_setup, AccessError, Hardware, SetupError,
};
use neotron_qemu_bios::NeoMutex;
use neotron_qemu_bios::uart::RegisterWrite;

#[test]
fn setup_enables_console_at_boot_rate() {
    let (hw, writes) = hardware_setup(Some(42u8)).expect("token given");
    assert_eq!(hw.cp, 42);
    assert_eq!(hw.uart0.base(), 0x5930_3000);
    assert_eq!(
        writes,
        vec![
            RegisterWrite { addr: 0x5930_3010, value: 25_000_000 / 115_200 },
            RegisterWrite { addr: 0x5930_3008, value: 3 },
        ]
    );
}

#[test]
fn setup_without_token_fails() {
    assert!(matches!(hardware_setup::<u8>(None), Err(SetupError::PeripheralsTaken)));
}

#[test]
fn console_driver_addresses() {
    let u = console_driver();
    assert_eq!(u.data_addr(), 0x5930_3000);
    assert_eq!(u.status_addr(), 0x5930_3004);
}

#[test]
fn guarded_console_access() {
    let (hw, _) = hardware_setup(Some(7u8)).unwrap();
    let mut state = NeoMutex::new(Some(hw));
    let (guard, uart) = acquire_console(&mut state).expect("guard free and populated");
    assert_eq!(uart.base(), 0x5930_3000);
    assert!(state.locked());
    assert!(matches!(acquire_console(&mut state), Err(AccessError::Reentrant)));
    assert!(state.locked());
    state.unlock(guard);
    assert!(!state.locked());
    let (again, _) = acquire_console(&mut state).expect("released guard can be taken again");
    state.unlock(again);
}

#[test]
fn console_access_before_boot() {
    let mut state: NeoMutex<Option<Hardware<u8>>> = NeoMutex::new(None);
    assert!(matches!(acquire_console(&mut state), Err(AccessError::NotSetUp)));
    assert!(!state.locked());
}
