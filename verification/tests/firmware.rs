use uart_hello::boot::{fault, greeting_bytes, start, step, FirmwareState};
use uart_hello::mmio::{MmioBus, MmioWrite};
use uart_hello::uart::{uart_putc, uart_puts, UART_TX_ADDR};

const GREETING: &str = "Hello, World from Rust on PicoRV32!\r\n";

fn drained(bus: &MmioBus) -> Vec<MmioWrite> {
    let mut out: Vec<MmioWrite> = Vec::new();
    let mut i: usize = 0;
    while i < bus.write_count() {
        out.push(bus.write_at(i));
        i += 1;
    }
    out
}

#[test]
fn boot_writes_the_greeting_bytes_in_order() {
    let mut bus = MmioBus::new();
    let st = start(&mut bus);
    assert_eq!(st, FirmwareState::Halted);
    let log = drained(&bus);
    let expected = GREETING.as_bytes();
    assert_eq!(log.len(), expected.len());
    for (i, w) in log.iter().enumerate() {
        assert_eq!(w.addr, UART_TX_ADDR);
        assert_eq!(w.val, expected[i]);
    }
}

#[test]
fn greeting_bytes_matches_the_literal() {
    assert_eq!(greeting_bytes(), GREETING.as_bytes().to_vec());
}

#[test]
fn no_writes_after_boot_completes() {
    let mut bus = MmioBus::new();
    let mut st = start(&mut bus);
    let after_boot = bus.write_count();
    for _ in 0..100 {
        step(&mut st, &mut bus);
        assert_eq!(st, FirmwareState::Halted);
        assert_eq!(bus.write_count(), after_boot);
    }
    assert_eq!(drained(&bus).len(), GREETING.len());
}

#[test]
fn transmitter_writes_every_byte_to_the_fixed_address() {
    let mut bus = MmioBus::new();
    let input: Vec<u8> = vec![0, 255, 10, 13, 65, 65, 0];
    uart_puts(&mut bus, &input);
    let log = drained(&bus);
    assert_eq!(log.len(), input.len());
    for (i, w) in log.iter().enumerate() {
        assert_eq!(w.addr, UART_TX_ADDR);
        assert_eq!(w.val, input[i]);
    }
}

#[test]
fn transmitting_twice_gives_two_identical_passes() {
    let mut bus = MmioBus::new();
    let input: Vec<u8> = vec![1, 2, 3, 4];
    uart_puts(&mut bus, &input);
    uart_puts(&mut bus, &input);
    let log = drained(&bus);
    assert_eq!(log.len(), 2 * input.len());
    let (first, second) = log.split_at(input.len());
    assert_eq!(first, second);
    for (i, w) in first.iter().enumerate() {
        assert_eq!(w.addr, UART_TX_ADDR);
        assert_eq!(w.val, input[i]);
    }
}

#[test]
fn empty_sequence_performs_zero_writes() {
    let mut bus = MmioBus::new();
    uart_puts(&mut bus, &[]);
    assert_eq!(bus.write_count(), 0);
}

#[test]
fn putc_performs_exactly_one_write() {
    let mut bus = MmioBus::new();
    uart_putc(&mut bus, b'A');
    assert_eq!(bus.write_count(), 1);
    assert_eq!(
        bus.write_at(0),
        MmioWrite {
            addr: UART_TX_ADDR,
            val: b'A'
        }
    );
}

#[test]
fn write_mmio_records_address_and_value() {
    let mut bus = MmioBus::new();
    bus.write_mmio(0x1000, 0x5A);
    bus.write_mmio(0x02000000, 0xA5);
    assert_eq!(bus.write_count(), 2);
    assert_eq!(
        bus.write_at(0),
        MmioWrite {
            addr: 0x1000,
            val: 0x5A
        }
    );
    assert_eq!(
        bus.write_at(1),
        MmioWrite {
            addr: 0x02000000,
            val: 0xA5
        }
    );
}

#[test]
fn fault_handler_stays_faulted_and_writes_nothing() {
    let mut bus = MmioBus::new();
    let mut st = FirmwareState::Transmitting;
    fault(&mut st, &mut bus);
    assert_eq!(st, FirmwareState::Faulted);
    assert_eq!(bus.write_count(), 0);
    for _ in 0..100 {
        step(&mut st, &mut bus);
        assert_eq!(st, FirmwareState::Faulted);
        assert_eq!(bus.write_count(), 0);
    }
}

#[test]
fn fault_after_boot_keeps_the_greeting_and_adds_nothing() {
    let mut bus = MmioBus::new();
    let mut st = start(&mut bus);
    fault(&mut st, &mut bus);
    assert_eq!(st, FirmwareState::Faulted);
    assert_eq!(bus.write_count(), GREETING.len());
    step(&mut st, &mut bus);
    assert_eq!(bus.write_count(), GREETING.len());
}
