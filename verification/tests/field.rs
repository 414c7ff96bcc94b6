use adxl345_hal::field::{
    extract_bits, insert_bits, FIFOMode, GRange, OutputDataRateHz, ReadingFrequencyHz,
    RegisterField,
};

#[test]
fn bit_mangling() {
    let input: u8 = 0b0100_1100;

    assert!(bool::from_inner_bits(input, 3, 3));
    assert!(!bool::from_inner_bits(input, 5, 5));

    assert_eq!(u8::from_inner_bits(input, 6, 2), 0b10011);

    assert_eq!(bool::set_inner_bits(input, 5, 5, true), 0b0110_1100);
    assert_eq!(bool::set_inner_bits(input, 6, 6, false), 0b0000_1100);

    assert_eq!(u8::set_inner_bits(input, 6, 3, 0b0000_1010), 0b0101_0100);
    assert_eq!(u8::set_inner_bits(input, 6, 3, 0b1101_1010), 0b0101_0100);
}

#[test]
fn round_trip_every_span_and_value() {
    let samples: [u8; 4] = [0x00, 0xFF, 0b0100_1100, 0b1010_0101];
    for byte in samples {
        for msb in 0u8..8 {
            for lsb in 0u8..=msb {
                let width: u8 = msb - lsb + 1;
                let mask: u8 = if width == 8 { 0xFF } else { (1u8 << width) - 1 };
                let mut v: u8 = 0;
                loop {
                    let encoded = insert_bits(byte, msb, lsb, v);
                    assert_eq!(extract_bits(encoded, msb, lsb), v);
                    // Bits outside the span keep their original state.
                    let span: u8 = mask << lsb;
                    assert_eq!(encoded & !span, byte & !span);
                    if v == mask {
                        break;
                    }
                    v += 1;
                }
            }
        }
    }
}

#[test]
fn encoding_twice_is_encoding_once() {
    let samples: [u8; 3] = [0x00, 0xFF, 0b0100_1100];
    for byte in samples {
        for msb in 0u8..8 {
            for lsb in 0u8..=msb {
                for v in [0u8, 1, 0x55, 0xFF] {
                    let once = insert_bits(byte, msb, lsb, v);
                    let twice = insert_bits(once, msb, lsb, v);
                    assert_eq!(twice, once);
                }
            }
        }
    }
}

#[test]
fn full_width_span_is_identity() {
    for byte in [0u8, 0x5A, 0xFF] {
        assert_eq!(extract_bits(byte, 7, 0), byte);
        assert_eq!(insert_bits(0x12, 7, 0, byte), byte);
    }
}

#[test]
fn signed_fields_pass_through_as_bytes() {
    assert_eq!(i8::from_byte(0xFF), -1);
    assert_eq!((-1i8).to_byte(), 0xFF);
    assert_eq!(i8::from_inner_bits(0x7F, 7, 0), 127);
    assert_eq!(i8::set_inner_bits(0, 7, 0, -128), 0x80);
}

#[test]
fn fifo_mode_codes() {
    assert_eq!(FIFOMode::from_byte(0), FIFOMode::Bypass);
    assert_eq!(FIFOMode::from_byte(1), FIFOMode::Fifo);
    assert_eq!(FIFOMode::from_byte(2), FIFOMode::Stream);
    assert_eq!(FIFOMode::from_byte(3), FIFOMode::Trigger);
    for v in 0u8..4 {
        assert_eq!(FIFOMode::from_byte(v).to_byte(), v);
    }
    // A two-bit field at bits [6, 7].
    assert_eq!(FIFOMode::from_inner_bits(0b0100_1100, 7, 6), FIFOMode::Fifo);
    assert_eq!(FIFOMode::set_inner_bits(0b0100_1100, 7, 6, FIFOMode::Stream), 0b1000_1100);
}

#[test]
fn g_range_codes() {
    assert_eq!(GRange::from_byte(0), GRange::Two);
    assert_eq!(GRange::from_byte(3), GRange::Sixteen);
    for v in 0u8..4 {
        assert_eq!(GRange::from_byte(v).to_byte(), v);
    }
}

#[test]
fn reading_frequency_codes() {
    assert_eq!(ReadingFrequencyHz::from_byte(0), ReadingFrequencyHz::Eight);
    assert_eq!(ReadingFrequencyHz::from_byte(3), ReadingFrequencyHz::One);
    for v in 0u8..4 {
        assert_eq!(ReadingFrequencyHz::from_byte(v).to_byte(), v);
    }
}

#[test]
fn output_data_rate_codes() {
    assert_eq!(OutputDataRateHz::from_byte(0).to_byte(), 0);
    assert_eq!(OutputDataRateHz::from_byte(12), OutputDataRateHz::_400);
    for v in 0u8..16 {
        assert_eq!(OutputDataRateHz::from_byte(v).to_byte(), v);
    }
}
