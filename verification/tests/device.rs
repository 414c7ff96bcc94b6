use adxl345_hal::data_bus::MessageFlags;
use adxl345_hal::field::FIFOMode;
use adxl345_hal::register::{Register, RegisterHandle, FIFO_CTL};

#[test]
fn command_byte_masks() {
    // The command byte is the union of the chosen masks intersected with the
    // register's address.
    let read_single = MessageFlags::read().union(MessageFlags::single()).register::<FIFO_CTL>();
    assert_eq!(read_single, 0b1011_1111 & FIFO_CTL::address());

    let write_multi = MessageFlags::write().union(MessageFlags::multiple()).register::<FIFO_CTL>();
    assert_eq!(write_multi, 0b0111_1111 & FIFO_CTL::address());
}

#[test]
fn handle_typed_fields() {
    let mut h = RegisterHandle::fill(0b0100_1100);

    let mode: FIFOMode = h.field(7, 6);
    assert_eq!(mode, FIFOMode::Fifo);

    let trigger: bool = h.field(5, 5);
    assert!(!trigger);

    let samples: u8 = h.field(4, 0);
    assert_eq!(samples, 0b01100);

    h.set_field(7, 6, FIFOMode::Stream);
    assert_eq!(h.into_raw(), 0b1000_1100);
}

#[test]
fn default_handle_is_zeroed() {
    let h = RegisterHandle::default();
    assert_eq!(h.into_raw(), 0);
}
