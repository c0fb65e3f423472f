use neotron_qemu_bios::loopback::{read_serial, receive, send_all, write_serial, LoopbackUart};
use neotron_qemu_bios::serial::{serial_configure, Error, SerialConfig, UART0_BASE};
use neotron_qemu_bios::uart::Uart;

#[test]
fn loopback_returns_written_bytes() {
    let uart = Uart::new(UART0_BASE);
    let mut dev = LoopbackUart::new(UART0_BASE, 64);
    assert_eq!(write_serial(&uart, &mut dev, 0, b"a\nb"), Ok(3));
    let mut buf = [0u8; 16];
    let n = receive(&uart, &mut dev, &mut buf);
    assert_eq!(&buf[..n], &[b'a', b'\r', b'\n', b'b']);
    assert!(dev.pending().is_empty());
}

#[test]
fn partial_write_reports_what_fit() {
    let uart = Uart::new(UART0_BASE);
    let mut dev = LoopbackUart::new(UART0_BASE, 3);
    assert_eq!(write_serial(&uart, &mut dev, 0, b"abcdef"), Ok(3));
    assert_eq!(dev.pending(), &b"abc".to_vec());
}

#[test]
fn partial_write_stops_before_split_newline() {
    let uart = Uart::new(UART0_BASE);
    let mut dev = LoopbackUart::new(UART0_BASE, 3);
    assert_eq!(write_serial(&uart, &mut dev, 0, b"ab\ncd"), Ok(2));
    assert_eq!(dev.pending(), &vec![b'a', b'b', b'\r']);
}

#[test]
fn write_to_other_device_touches_nothing() {
    let uart = Uart::new(UART0_BASE);
    let mut dev = LoopbackUart::new(UART0_BASE, 8);
    assert_eq!(write_serial(&uart, &mut dev, 1, b"abc"), Err(Error::InvalidDevice));
    assert!(dev.pending().is_empty());
}

#[test]
fn short_buffer_reads_part() {
    let uart = Uart::new(UART0_BASE);
    let mut dev = LoopbackUart::new(UART0_BASE, 8);
    assert_eq!(send_all(&uart, &mut dev, b"wxyz"), 4);
    let mut buf = [9u8; 2];
    assert_eq!(receive(&uart, &mut dev, &mut buf), 2);
    assert_eq!(buf, [b'w', b'x']);
    assert_eq!(dev.pending(), &b"yz".to_vec());
    let mut big = [0u8; 5];
    assert_eq!(receive(&uart, &mut dev, &mut big), 2);
    assert_eq!(big, [b'y', b'z', 0, 0, 0]);
    assert_eq!(receive(&uart, &mut dev, &mut big), 0);
}

#[test]
fn send_all_stops_when_full() {
    let uart = Uart::new(UART0_BASE);
    let mut dev = LoopbackUart::new(UART0_BASE, 2);
    assert_eq!(send_all(&uart, &mut dev, b"abc"), 2);
    assert_eq!(send_all(&uart, &mut dev, b"d"), 0);
}

#[test]
fn configure_then_write_end_to_end() {
    let uart = Uart::new(UART0_BASE);
    let mut dev = LoopbackUart::new(UART0_BASE, 64);
    for w in uart.enable(115_200, 25_000_000) {
        dev.store(w.addr, w.value);
    }
    assert_eq!(dev.bauddiv(), 25_000_000 / 115_200);
    let writes = serial_configure(&uart, 0, SerialConfig { data_rate_bps: 9600 }).unwrap();
    for w in writes {
        dev.store(w.addr, w.value);
    }
    assert_eq!(dev.bauddiv(), 25_000_000 / 9600);
    assert_eq!(dev.control(), 3);
    assert_eq!(write_serial(&uart, &mut dev, 0, b"hi\n"), Ok(3));
    assert_eq!(dev.pending(), &vec![b'h', b'i', b'\r', b'\n']);
}

#[test]
fn model_registers_read_back() {
    let mut dev = LoopbackUart::new(0x2000, 1);
    assert_eq!(dev.load(0x2004), 0);
    dev.store(0x2000, 0x41);
    assert_eq!(dev.load(0x2004), 3);
    dev.store(0x2000, 0x42);
    assert_eq!(dev.load(0x2000), 0x41);
    assert_eq!(dev.load(0x2000), 0);
    dev.store(0x2008, 3);
    assert_eq!(dev.load(0x2008), 3);
    assert_eq!(dev.load(0x3000), 0);
}

#[test]
fn read_serial_checks_device() {
    let uart = Uart::new(UART0_BASE);
    let mut dev = LoopbackUart::new(UART0_BASE, 8);
    assert_eq!(send_all(&uart, &mut dev, b"ok"), 2);
    let mut buf = [0u8; 4];
    assert_eq!(read_serial(&uart, &mut dev, 3, &mut buf), Err(Error::InvalidDevice));
    assert_eq!(buf, [0; 4]);
    assert_eq!(dev.pending(), &b"ok".to_vec());
    assert_eq!(read_serial(&uart, &mut dev, 0, &mut buf), Ok(2));
    assert_eq!(buf, [b'o', b'k', 0, 0]);
}
