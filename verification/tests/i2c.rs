use adxl345_hal::data_bus::DataBus;
use adxl345_hal::i2c::{Address, I2CBus, I2CError};
use adxl345_hal::mock::{I2cRecord, ScriptedI2c};
use adxl345_hal::register::{Register, DEVID, POWER_CTL, THRESH_TAP};
use adxl345_hal::ADXL345;

#[test]
fn read_devid() {
    let address: u8 = Address::Default.value();
    let device_id: u8 = 0b1110_0101;
    let mock = ScriptedI2c::new(vec![vec![device_id]]);

    let mut device = ADXL345::from_i2c(mock, Address::Default);

    let handle = device.read::<DEVID>().unwrap();
    let value: u8 = handle.field(7, 0);
    assert_eq!(value, device_id);

    let mock = device.destroy();
    assert_eq!(mock.record().len(), 1);
    assert_eq!(
        mock.record()[0],
        I2cRecord::WriteRead {
            addr: address,
            sent: vec![DEVID::address()],
            recv: vec![device_id],
        }
    );
}

#[test]
fn two_wire_read() {
    // A single-register read sends one command byte, the union of the read
    // and single masks intersected with the address, then reads one byte.
    let mock = ScriptedI2c::new(vec![vec![0xE5]]);
    let mut device = ADXL345::from_i2c(mock, Address::Default);

    let handle = device.read::<POWER_CTL>().unwrap();
    assert_eq!(handle.into_raw(), 0xE5);

    let mock = device.destroy();
    assert_eq!(
        mock.record()[0],
        I2cRecord::WriteRead {
            addr: Address::Default.value(),
            sent: vec![0b1011_1111 & POWER_CTL::address()],
            recv: vec![0xE5],
        }
    );
}

#[test]
fn two_wire_single_write() {
    let mock = ScriptedI2c::new(vec![]);
    let mut device = ADXL345::from_i2c(mock, Address::Alt);

    device
        .write::<THRESH_TAP, _>(|mut h| {
            h.set_field(7, 0, 0xABu8);
            h
        })
        .unwrap();

    let mock = device.destroy();
    assert_eq!(
        mock.record()[0],
        I2cRecord::Write {
            addr: Address::Alt.value(),
            data: vec![0b0011_1111 & THRESH_TAP::address(), 0xAB],
        }
    );
}

#[test]
fn two_wire_modify_reads_then_writes() {
    let mock = ScriptedI2c::new(vec![vec![0b0000_0001]]);
    let mut device = ADXL345::from_i2c(mock, Address::Default);

    device
        .modify::<POWER_CTL, _>(|mut h| {
            h.set_field(3, 3, true);
            h
        })
        .unwrap();

    let mock = device.destroy();
    assert_eq!(mock.record().len(), 2);
    assert_eq!(
        mock.record()[0],
        I2cRecord::WriteRead {
            addr: Address::Default.value(),
            sent: vec![0b1011_1111 & POWER_CTL::address()],
            recv: vec![0b0000_0001],
        }
    );
    assert_eq!(
        mock.record()[1],
        I2cRecord::Write {
            addr: Address::Default.value(),
            data: vec![0b0011_1111 & POWER_CTL::address(), 0b0000_1001],
        }
    );
}

#[test]
fn two_wire_multi_read() {
    let mock = ScriptedI2c::new(vec![vec![0x11, 0x22, 0x33]]);
    let mut bus = I2CBus::new(mock, Address::Default);

    let mut buffer = vec![0u8; 3];
    bus.read_all::<THRESH_TAP>(&mut buffer).unwrap();
    assert_eq!(buffer, vec![0x11, 0x22, 0x33]);

    let mock = bus.destroy();
    assert_eq!(
        mock.record()[0],
        I2cRecord::WriteRead {
            addr: Address::Default.value(),
            sent: vec![0b1111_1111 & THRESH_TAP::address()],
            recv: vec![0x11, 0x22, 0x33],
        }
    );
}

#[test]
fn two_wire_multi_write_stages_command_byte() {
    let mock = ScriptedI2c::new(vec![]);
    let mut bus = I2CBus::new(mock, Address::Default);

    bus.write_all::<THRESH_TAP>(&[0x09, 0x08, 0x07]).unwrap();

    let mock = bus.destroy();
    assert_eq!(
        mock.record()[0],
        I2cRecord::Write {
            addr: Address::Default.value(),
            data: vec![0b0111_1111 & THRESH_TAP::address(), 0x09, 0x08, 0x07],
        }
    );
}

#[test]
fn two_wire_multi_write_capacity_error() {
    // One command byte plus the payload must fit the 14-byte staging buffer:
    // 14 payload bytes are one too many, and nothing reaches the transport.
    let mock = ScriptedI2c::new(vec![]);
    let mut bus = I2CBus::new(mock, Address::Default);

    let payload = [0u8; 14];
    let r = bus.write_all::<THRESH_TAP>(&payload);
    assert!(matches!(r, Err(I2CError::Capacity(_))));

    let mock = bus.destroy();
    assert_eq!(mock.record().len(), 0);
}

#[test]
fn two_wire_multi_write_largest_payload_fits() {
    let mock = ScriptedI2c::new(vec![]);
    let mut bus = I2CBus::new(mock, Address::Default);

    let payload = [0x55u8; 13];
    bus.write_all::<THRESH_TAP>(&payload).unwrap();

    let mock = bus.destroy();
    assert_eq!(mock.record().len(), 1);
}

#[test]
fn two_wire_transport_error_is_surfaced() {
    // No scripted reply: the combined write-then-read fails and the error is
    // reported as a write-read transport error.
    let mock = ScriptedI2c::new(vec![]);
    let mut device = ADXL345::from_i2c(mock, Address::Default);

    let r = device.read::<DEVID>();
    assert!(matches!(r, Err(I2CError::WriteRead(_))));
}

#[test]
fn two_wire_empty_transfers_are_no_ops() {
    let mock = ScriptedI2c::new(vec![]);
    let mut bus = I2CBus::new(mock, Address::Default);

    let mut buffer: Vec<u8> = vec![];
    bus.read_all::<THRESH_TAP>(&mut buffer).unwrap();
    bus.write_all::<THRESH_TAP>(&[]).unwrap();

    let mock = bus.destroy();
    assert_eq!(mock.record().len(), 0);
}
