use adxl345_hal::data_bus::DataBus;
use adxl345_hal::mock::{RecordedPin, ScriptedSpi};
use adxl345_hal::register::{Register, DATAX0, DEVID, THRESH_TAP};
use adxl345_hal::spi::{SPIBus, SpiError};
use adxl345_hal::transport::PinLevel;
use adxl345_hal::ADXL345;

#[test]
fn four_wire_even_write_rejected_before_transport() {
    // An even-length multi-byte write greater than one byte loses byte
    // parity in the word framing: it must fail before any word is exchanged
    // and before the chip-select line is touched.
    let spi = ScriptedSpi::new(vec![]);
    let pin = RecordedPin::new();
    let mut bus = SPIBus::new(spi, pin);

    let r = bus.write_all::<THRESH_TAP>(&[0x01, 0x02]);
    assert!(matches!(r, Err(SpiError::InvalidWriteBuffer(_))));
    let r = bus.write_all::<THRESH_TAP>(&[0x01, 0x02, 0x03, 0x04]);
    assert!(matches!(r, Err(SpiError::InvalidWriteBuffer(_))));

    let (spi, pin) = bus.destroy();
    assert_eq!(spi.record().len(), 0);
    assert_eq!(pin.record().len(), 0);
}

#[test]
fn four_wire_read_of_three_bytes() {
    // First byte from the low byte of the command-word response, bytes two
    // and three from one further big-endian word: exactly two exchanges, no
    // trailing odd-byte exchange.
    let spi = ScriptedSpi::new(vec![0xAA11, 0x2233]);
    let pin = RecordedPin::new();
    let mut bus = SPIBus::new(spi, pin);

    let mut buffer = vec![0u8; 3];
    bus.read_all::<DATAX0>(&mut buffer).unwrap();
    assert_eq!(buffer, vec![0x11, 0x22, 0x33]);

    let (spi, pin) = bus.destroy();
    assert_eq!(spi.record().len(), 2);
    let cmd_word: u16 = (u16::from(0b1111_1111 & DATAX0::address())) << 8;
    assert_eq!(spi.record()[0], (cmd_word, 0xAA11));
    assert_eq!(spi.record()[1], (0x0000, 0x2233));
    assert_eq!(pin.record(), &vec![PinLevel::Low, PinLevel::High]);
}

#[test]
fn four_wire_read_of_two_bytes_has_trailing_exchange() {
    // An even buffer keeps one byte after the command word, so the last byte
    // comes from the high byte of a final single-purpose exchange.
    let spi = ScriptedSpi::new(vec![0xAA11, 0x22BB]);
    let pin = RecordedPin::new();
    let mut bus = SPIBus::new(spi, pin);

    let mut buffer = vec![0u8; 2];
    bus.read_all::<DATAX0>(&mut buffer).unwrap();
    assert_eq!(buffer, vec![0x11, 0x22]);

    let (spi, _) = bus.destroy();
    assert_eq!(spi.record().len(), 2);
}

#[test]
fn four_wire_multi_write_framing() {
    let spi = ScriptedSpi::new(vec![0, 0]);
    let pin = RecordedPin::new();
    let mut bus = SPIBus::new(spi, pin);

    bus.write_all::<THRESH_TAP>(&[0x09, 0x08, 0x07]).unwrap();

    let (spi, pin) = bus.destroy();
    assert_eq!(spi.record().len(), 2);
    let cmd: u8 = 0b0111_1111 & THRESH_TAP::address();
    assert_eq!(spi.record()[0].0, (u16::from(cmd) << 8) | 0x09);
    assert_eq!(spi.record()[1].0, 0x0807);
    assert_eq!(pin.record(), &vec![PinLevel::Low, PinLevel::High]);
}

#[test]
fn four_wire_empty_transfers_are_no_ops() {
    let spi = ScriptedSpi::new(vec![]);
    let pin = RecordedPin::new();
    let mut bus = SPIBus::new(spi, pin);

    let mut buffer: Vec<u8> = vec![];
    bus.read_all::<DATAX0>(&mut buffer).unwrap();
    bus.write_all::<THRESH_TAP>(&[]).unwrap();

    let (spi, pin) = bus.destroy();
    assert_eq!(spi.record().len(), 0);
    assert_eq!(pin.record().len(), 0);
}

#[test]
fn four_wire_single_read_takes_low_byte() {
    let spi = ScriptedSpi::new(vec![0xBEEF]);
    let pin = RecordedPin::new();
    let mut device = ADXL345::from_spi_cs(spi, pin);

    let handle = device.read::<DEVID>().unwrap();
    assert_eq!(handle.into_raw(), 0xEF);

    let (spi, _) = device.destroy();
    let cmd_word: u16 = (u16::from(0b1011_1111 & DEVID::address())) << 8;
    assert_eq!(spi.record()[0], (cmd_word, 0xBEEF));
}

#[test]
fn four_wire_single_write_word() {
    let spi = ScriptedSpi::new(vec![0]);
    let pin = RecordedPin::new();
    let mut bus = SPIBus::new(spi, pin);

    bus.write::<THRESH_TAP>(0x42).unwrap();

    let (spi, _) = bus.destroy();
    let cmd: u8 = 0b0011_1111 & THRESH_TAP::address();
    assert_eq!(spi.record()[0].0, (u16::from(cmd) << 8) | 0x42);
}

#[test]
fn chip_select_guard_on_success() {
    let spi = ScriptedSpi::new(vec![0]);
    let pin = RecordedPin::new();
    let mut bus = SPIBus::new(spi, pin);

    bus.write::<THRESH_TAP>(0x01).unwrap();

    let (_, pin) = bus.destroy();
    assert_eq!(pin.record(), &vec![PinLevel::Low, PinLevel::High]);
}

#[test]
fn chip_select_guard_on_failing_exchange() {
    // The exchange fails (no scripted reply), yet the select line still
    // shows exactly one assert-then-release pair.
    let spi = ScriptedSpi::new(vec![]);
    let pin = RecordedPin::new();
    let mut bus = SPIBus::new(spi, pin);

    let r = bus.write::<THRESH_TAP>(0x01);
    assert!(matches!(r, Err(SpiError::Transfer(_))));

    let (_, pin) = bus.destroy();
    assert_eq!(pin.record(), &vec![PinLevel::Low, PinLevel::High]);
}

#[test]
fn chip_select_guard_on_failing_multi_read() {
    // The second exchange of a three-byte read fails; the line is still
    // released exactly once.
    let spi = ScriptedSpi::new(vec![0xAA11]);
    let pin = RecordedPin::new();
    let mut bus = SPIBus::new(spi, pin);

    let mut buffer = vec![0u8; 3];
    let r = bus.read_all::<DATAX0>(&mut buffer);
    assert!(matches!(r, Err(SpiError::Transfer(_))));

    let (spi, pin) = bus.destroy();
    assert_eq!(spi.record().len(), 1);
    assert_eq!(pin.record(), &vec![PinLevel::Low, PinLevel::High]);
}
