use vstd::prelude::*;

use crate::Sealed;

verus! {

// ---------------------------------------------------------------------------
// Bit-span arithmetic
//
// A register byte is divided into fields, each occupying the inclusive bit
// span [lsb, msb] (bit 0 is the least significant).  Decoding isolates the
// span and right-justifies it; encoding clears exactly the span in the
// original byte and ORs the (truncated) value into it, leaving every other
// bit untouched.
// ---------------------------------------------------------------------------

/// Mask with the low `w` bits set, for widths 0 ..= 8.
pub open spec fn mask_width(w: u8) -> u8
    recommends
        w <= 8,
{
    if w == 8 {
        0xFFu8
    } else {
        ((1u8 << w) - 1) as u8
    }
}

/// Number of bits in the inclusive span [lsb, msb].
pub open spec fn span_width(msb: u8, lsb: u8) -> u8
    recommends
        lsb <= msb <= 7,
{
    (msb - lsb + 1) as u8
}

/// Mask selecting exactly the bits of the span [lsb, msb].
pub open spec fn span_mask(msb: u8, lsb: u8) -> u8
    recommends
        lsb <= msb <= 7,
{
    mask_width(span_width(msb, lsb)) << lsb
}

/// Whether bit `i` of `b` is set.
pub open spec fn spec_bit(b: u8, i: u8) -> bool
    recommends
        i <= 7,
{
    (b >> i) & 1 == 1
}

/// The bits of the span [lsb, msb] of `byte`, right-justified.
pub open spec fn spec_extract_bits(byte: u8, msb: u8, lsb: u8) -> u8
    recommends
        lsb <= msb <= 7,
{
    (byte >> lsb) & mask_width(span_width(msb, lsb))
}

/// `byte` with the span [lsb, msb] replaced by the low bits of `value`;
/// every bit outside the span keeps its original state.
pub open spec fn spec_encode_bits(byte: u8, msb: u8, lsb: u8, value: u8) -> u8
    recommends
        lsb <= msb <= 7,
{
    (byte & !span_mask(msb, lsb)) | ((value & mask_width(span_width(msb, lsb))) << lsb)
}

/// Isolate the bits [lsb, msb] of `byte` and right-justify them.
pub fn extract_bits(byte: u8, msb: u8, lsb: u8) -> (r: u8)
    requires
        lsb <= msb <= 7,
    ensures
        r == spec_extract_bits(byte, msb, lsb),
{
    let offset = msb - lsb;
    let r = byte << (7 - msb) >> (7 - offset);
    proof {
        assert(byte << ((7 - msb) as u8) >> ((7 - (msb - lsb)) as u8) == spec_extract_bits(
            byte,
            msb,
            lsb,
        ))
            by (bit_vector)
            requires
                lsb <= msb <= 7,
        ;
    }
    r
}

/// Clear the span [lsb, msb] in `byte` and OR in the low bits of `value`.
/// Bits of `value` beyond the span width are discarded.
pub fn insert_bits(byte: u8, msb: u8, lsb: u8, value: u8) -> (r: u8)
    requires
        lsb <= msb <= 7,
    ensures
        r == spec_encode_bits(byte, msb, lsb, value),
{
    let offset = msb - lsb;
    let mask = (0xFFu8 << (7 - msb) >> (7 - offset) << lsb) ^ 0xFF;
    let val = value << (7 - offset) >> (7 - msb);
    let r = (byte & mask) | val;
    proof {
        assert((byte & ((0xFFu8 << ((7 - msb) as u8) >> ((7 - (msb - lsb)) as u8) << lsb) ^ 0xFF))
            | (value << ((7 - (msb - lsb)) as u8) >> ((7 - msb) as u8)) == spec_encode_bits(
            byte,
            msb,
            lsb,
            value,
        ))
            by (bit_vector)
            requires
                lsb <= msb <= 7,
        ;
    }
    r
}

/// Round-trip law: decoding a freshly encoded field yields the value back,
/// for every span of 1 to 8 bits and every value representable in the span,
/// and every bit outside the span is left exactly as it was in the original
/// byte.
pub proof fn lemma_field_round_trip(byte: u8, msb: u8, lsb: u8, value: u8)
    by (bit_vector)
    requires
        lsb <= msb <= 7,
        value == value & mask_width(span_width(msb, lsb)),
    ensures
        spec_extract_bits(spec_encode_bits(byte, msb, lsb, value), msb, lsb) == value,
        forall|i: u8|
            i <= 7 && !(lsb <= i <= msb) ==> spec_bit(spec_encode_bits(byte, msb, lsb, value), i)
                == spec_bit(byte, i),
{
}

/// Idempotence: encoding the same value into the same span twice gives the
/// same byte as encoding it once, for every value, masked or not.
pub proof fn lemma_field_idempotent(byte: u8, msb: u8, lsb: u8, value: u8)
    by (bit_vector)
    requires
        lsb <= msb <= 7,
    ensures
        spec_encode_bits(spec_encode_bits(byte, msb, lsb, value), msb, lsb, value)
            == spec_encode_bits(byte, msb, lsb, value),
{
}

/// A full-width span is the identity in both directions.
pub proof fn lemma_full_span_identity(byte: u8, value: u8)
    by (bit_vector)
    ensures
        spec_extract_bits(byte, 7, 0) == byte,
        spec_encode_bits(byte, 7, 0, value) == value,
{
}

// ---------------------------------------------------------------------------
// Typed field values
// ---------------------------------------------------------------------------

/// A value that can live in a bit span of a register byte: a boolean flag, a
/// signed or unsigned byte, or one of the device's small enumerations.
pub trait RegisterField: Sealed + Sized {
    /// Which raw span contents decode to a value of this type.  Decoding a
    /// byte outside this set would mean the device state is corrupted, so it
    /// is ruled out statically rather than handled at run time.
    spec fn spec_valid_byte(value: u8) -> bool;

    /// Which spans this type may be laid out in, so that every raw span
    /// content decodes to a valid value.
    spec fn spec_span_ok(msb: u8, lsb: u8) -> bool;

    /// The value a raw span content decodes to.
    spec fn spec_from_byte(value: u8) -> Self;

    /// The raw bit pattern of the value.
    spec fn spec_to_byte(self) -> u8;

    fn from_byte(value: u8) -> (r: Self)
        requires
            Self::spec_valid_byte(value),
        ensures
            r == Self::spec_from_byte(value),
    ;

    fn to_byte(self) -> (r: u8)
        ensures
            r == self.spec_to_byte(),
    ;

    /// Decode the span [lsb, msb] of `byte` as a value of this type.
    fn from_inner_bits(byte: u8, msb: u8, lsb: u8) -> (r: Self)
        requires
            lsb <= msb <= 7,
            Self::spec_span_ok(msb, lsb),
        ensures
            r == Self::spec_from_byte(spec_extract_bits(byte, msb, lsb)),
    ;

    /// Encode the value into the span [lsb, msb] of `byte`, leaving all
    /// other bits untouched.
    fn set_inner_bits(byte: u8, msb: u8, lsb: u8, value: Self) -> (r: u8)
        requires
            lsb <= msb <= 7,
            Self::spec_span_ok(msb, lsb),
        ensures
            r == spec_encode_bits(byte, msb, lsb, value.spec_to_byte()),
    ;

    /// Decoding a value's own bit pattern yields the value back: the typed
    /// half of the round-trip law, which each field type owes.
    proof fn lemma_to_from_byte(self)
        ensures
            Self::spec_from_byte(self.spec_to_byte()) == self,
    ;
}

/// Round-trip law at the typed layer: encoding a representable value into a
/// span the type may be laid out in and decoding that span yields the value
/// back, for every original byte.  A value is representable when its bit
/// pattern fits the span's width.
pub proof fn lemma_typed_field_round_trip<F: RegisterField>(byte: u8, msb: u8, lsb: u8, value: F)
    requires
        lsb <= msb <= 7,
        F::spec_span_ok(msb, lsb),
        value.spec_to_byte() == value.spec_to_byte() & mask_width(span_width(msb, lsb)),
    ensures
        F::spec_from_byte(
            spec_extract_bits(spec_encode_bits(byte, msb, lsb, value.spec_to_byte()), msb, lsb),
        ) == value,
{
    lemma_field_round_trip(byte, msb, lsb, value.spec_to_byte());
    value.lemma_to_from_byte();
}

/// Every raw span content of the given width decodes to a valid byte for the
/// type, provided the width is at most `w` and every value under
/// `mask_width(w)` is valid by construction.
pub proof fn lemma_extract_bounded(byte: u8, msb: u8, lsb: u8)
    by (bit_vector)
    requires
        lsb <= msb <= 7,
    ensures
        spec_extract_bits(byte, msb, lsb) <= mask_width(span_width(msb, lsb)),
        spec_extract_bits(byte, msb, lsb) == spec_extract_bits(byte, msb, lsb) & mask_width(
            span_width(msb, lsb),
        ),
{
}

/// Values of the small masks used by the enumerated fields below.
pub proof fn lemma_small_masks()
    by (bit_vector)
    ensures
        mask_width(1) == 0x01,
        mask_width(2) == 0x03,
        mask_width(4) == 0x0F,
        mask_width(8) == 0xFF,
{
}

impl Sealed for bool {

}

impl RegisterField for bool {
    open spec fn spec_valid_byte(value: u8) -> bool {
        true
    }

    /// A boolean field occupies a single bit.
    open spec fn spec_span_ok(msb: u8, lsb: u8) -> bool {
        msb == lsb
    }

    open spec fn spec_from_byte(value: u8) -> bool {
        value > 0
    }

    open spec fn spec_to_byte(self) -> u8 {
        if self {
            1u8
        } else {
            0u8
        }
    }

    #[inline]
    fn from_byte(value: u8) -> (r: bool) {
        value > 0
    }

    #[inline]
    fn to_byte(self) -> (r: u8) {
        if self {
            1
        } else {
            0
        }
    }

    #[inline]
    fn from_inner_bits(byte: u8, msb: u8, lsb: u8) -> (r: bool) {
        let r = byte << (7 - msb) >> 7;
        proof {
            assert((byte << ((7 - msb) as u8) >> 7 > 0) == (spec_extract_bits(byte, msb, lsb) > 0))
                by (bit_vector)
                requires
                    lsb == msb <= 7,
            ;
        }
        r > 0
    }

    #[inline]
    fn set_inner_bits(byte: u8, msb: u8, lsb: u8, value: bool) -> (r: u8) {
        let bit: u8 = if value {
            1
        } else {
            0
        };
        let r = (byte & !(1u8 << msb)) | (bit << msb);
        proof {
            assert((byte & !(1u8 << msb)) | (bit << msb) == spec_encode_bits(byte, msb, lsb, bit))
                by (bit_vector)
                requires
                    lsb == msb <= 7 && bit <= 1,
            ;
        }
        r
    }

    proof fn lemma_to_from_byte(self) {
    }
}

impl Sealed for u8 {

}

impl RegisterField for u8 {
    open spec fn spec_valid_byte(value: u8) -> bool {
        true
    }

    open spec fn spec_span_ok(msb: u8, lsb: u8) -> bool {
        true
    }

    open spec fn spec_from_byte(value: u8) -> u8 {
        value
    }

    open spec fn spec_to_byte(self) -> u8 {
        self
    }

    fn from_byte(value: u8) -> (r: u8) {
        value
    }

    fn to_byte(self) -> (r: u8) {
        self
    }

    fn from_inner_bits(byte: u8, msb: u8, lsb: u8) -> (r: u8) {
        extract_bits(byte, msb, lsb)
    }

    fn set_inner_bits(byte: u8, msb: u8, lsb: u8, value: u8) -> (r: u8) {
        insert_bits(byte, msb, lsb, value)
    }

    proof fn lemma_to_from_byte(self) {
    }
}

/// FIFO operating mode, a two-bit field.
#[derive(Clone, Copy, Debug, PartialEq, Eq, Structural)]
pub enum FIFOMode {
    Bypass,
    Fifo,
    Stream,
    Trigger,
}

impl Sealed for FIFOMode {

}

impl RegisterField for FIFOMode {
    open spec fn spec_valid_byte(value: u8) -> bool {
        value <= 3
    }

    open spec fn spec_span_ok(msb: u8, lsb: u8) -> bool {
        msb == lsb + 1
    }

    open spec fn spec_from_byte(value: u8) -> FIFOMode {
        if value == 0 {
            FIFOMode::Bypass
        } else if value == 1 {
            FIFOMode::Fifo
        } else if value == 2 {
            FIFOMode::Stream
        } else {
            FIFOMode::Trigger
        }
    }

    open spec fn spec_to_byte(self) -> u8 {
        match self {
            FIFOMode::Bypass => 0,
            FIFOMode::Fifo => 1,
            FIFOMode::Stream => 2,
            FIFOMode::Trigger => 3,
        }
    }

    fn from_byte(value: u8) -> (r: FIFOMode) {
        match value {
            0 => FIFOMode::Bypass,
            1 => FIFOMode::Fifo,
            2 => FIFOMode::Stream,
            _ => FIFOMode::Trigger,
        }
    }

    fn to_byte(self) -> (r: u8) {
        match self {
            FIFOMode::Bypass => 0,
            FIFOMode::Fifo => 1,
            FIFOMode::Stream => 2,
            FIFOMode::Trigger => 3,
        }
    }

    fn from_inner_bits(byte: u8, msb: u8, lsb: u8) -> (r: FIFOMode) {
        proof {
            lemma_extract_bounded(byte, msb, lsb);
            lemma_small_masks();
        }
        Self::from_byte(extract_bits(byte, msb, lsb))
    }

    fn set_inner_bits(byte: u8, msb: u8, lsb: u8, value: FIFOMode) -> (r: u8) {
        insert_bits(byte, msb, lsb, value.to_byte())
    }

    proof fn lemma_to_from_byte(self) {
    }
}

/// Measurement range in multiples of g, a two-bit field.
#[derive(Clone, Copy, Debug, PartialEq, Eq, Structural)]
pub enum GRange {
    Two,
    Four,
    Eight,
    Sixteen,
}

impl Sealed for GRange {

}

impl RegisterField for GRange {
    open spec fn spec_valid_byte(value: u8) -> bool {
        value <= 3
    }

    open spec fn spec_span_ok(msb: u8, lsb: u8) -> bool {
        msb == lsb + 1
    }

    open spec fn spec_from_byte(value: u8) -> GRange {
        if value == 0 {
            GRange::Two
        } else if value == 1 {
            GRange::Four
        } else if value == 2 {
            GRange::Eight
        } else {
            GRange::Sixteen
        }
    }

    open spec fn spec_to_byte(self) -> u8 {
        match self {
            GRange::Two => 0,
            GRange::Four => 1,
            GRange::Eight => 2,
            GRange::Sixteen => 3,
        }
    }

    fn from_byte(value: u8) -> (r: GRange) {
        match value {
            0 => GRange::Two,
            1 => GRange::Four,
            2 => GRange::Eight,
            _ => GRange::Sixteen,
        }
    }

    fn to_byte(self) -> (r: u8) {
        match self {
            GRange::Two => 0,
            GRange::Four => 1,
            GRange::Eight => 2,
            GRange::Sixteen => 3,
        }
    }

    fn from_inner_bits(byte: u8, msb: u8, lsb: u8) -> (r: GRange) {
        proof {
            lemma_extract_bounded(byte, msb, lsb);
            lemma_small_masks();
        }
        Self::from_byte(extract_bits(byte, msb, lsb))
    }

    fn set_inner_bits(byte: u8, msb: u8, lsb: u8, value: GRange) -> (r: u8) {
        insert_bits(byte, msb, lsb, value.to_byte())
    }

    proof fn lemma_to_from_byte(self) {
    }
}

/// Sleep-mode reading frequency in Hz, a two-bit field.
#[derive(Clone, Copy, Debug, PartialEq, Eq, Structural)]
pub enum ReadingFrequencyHz {
    Eight,
    Four,
    Two,
    One,
}

impl Sealed for ReadingFrequencyHz {

}

impl RegisterField for ReadingFrequencyHz {
    open spec fn spec_valid_byte(value: u8) -> bool {
        value <= 3
    }

    open spec fn spec_span_ok(msb: u8, lsb: u8) -> bool {
        msb == lsb + 1
    }

    open spec fn spec_from_byte(value: u8) -> ReadingFrequencyHz {
        if value == 0 {
            ReadingFrequencyHz::Eight
        } else if value == 1 {
            ReadingFrequencyHz::Four
        } else if value == 2 {
            ReadingFrequencyHz::Two
        } else {
            ReadingFrequencyHz::One
        }
    }

    open spec fn spec_to_byte(self) -> u8 {
        match self {
            ReadingFrequencyHz::Eight => 0,
            ReadingFrequencyHz::Four => 1,
            ReadingFrequencyHz::Two => 2,
            ReadingFrequencyHz::One => 3,
        }
    }

    fn from_byte(value: u8) -> (r: ReadingFrequencyHz) {
        match value {
            0 => ReadingFrequencyHz::Eight,
            1 => ReadingFrequencyHz::Four,
            2 => ReadingFrequencyHz::Two,
            _ => ReadingFrequencyHz::One,
        }
    }

    fn to_byte(self) -> (r: u8) {
        match self {
            ReadingFrequencyHz::Eight => 0,
            ReadingFrequencyHz::Four => 1,
            ReadingFrequencyHz::Two => 2,
            ReadingFrequencyHz::One => 3,
        }
    }

    fn from_inner_bits(byte: u8, msb: u8, lsb: u8) -> (r: ReadingFrequencyHz) {
        proof {
            lemma_extract_bounded(byte, msb, lsb);
            lemma_small_masks();
        }
        Self::from_byte(extract_bits(byte, msb, lsb))
    }

    fn set_inner_bits(byte: u8, msb: u8, lsb: u8, value: ReadingFrequencyHz) -> (r: u8) {
        insert_bits(byte, msb, lsb, value.to_byte())
    }

    proof fn lemma_to_from_byte(self) {
    }
}

/// Output data rate in Hz, a four-bit field.  An underscore inside a number
/// stands for a decimal dot: `_12_5` is 12.5 Hz, `_400` is 400 Hz.
#[derive(Clone, Copy, Debug, PartialEq, Eq, Structural)]
#[allow(non_camel_case_types)]
pub enum OutputDataRateHz {
    _0_10,
    _0_20,
    _0_39,
    _0_78,
    _1_56,
    _3_13,
    _6_25,
    _12_5,
    _25,
    _50,
    _100,
    _200,
    _400,
    _800,
    _1600,
    _3200,
}

impl Sealed for OutputDataRateHz {

}

impl RegisterField for OutputDataRateHz {
    open spec fn spec_valid_byte(value: u8) -> bool {
        value <= 15
    }

    open spec fn spec_span_ok(msb: u8, lsb: u8) -> bool {
        msb == lsb + 3
    }

    open spec fn spec_from_byte(value: u8) -> OutputDataRateHz {
        if value == 0 {
            OutputDataRateHz::_0_10
        } else if value == 1 {
            OutputDataRateHz::_0_20
        } else if value == 2 {
            OutputDataRateHz::_0_39
        } else if value == 3 {
            OutputDataRateHz::_0_78
        } else if value == 4 {
            OutputDataRateHz::_1_56
        } else if value == 5 {
            OutputDataRateHz::_3_13
        } else if value == 6 {
            OutputDataRateHz::_6_25
        } else if value == 7 {
            OutputDataRateHz::_12_5
        } else if value == 8 {
            OutputDataRateHz::_25
        } else if value == 9 {
            OutputDataRateHz::_50
        } else if value == 10 {
            OutputDataRateHz::_100
        } else if value == 11 {
            OutputDataRateHz::_200
        } else if value == 12 {
            OutputDataRateHz::_400
        } else if value == 13 {
            OutputDataRateHz::_800
        } else if value == 14 {
            OutputDataRateHz::_1600
        } else {
            OutputDataRateHz::_3200
        }
    }

    open spec fn spec_to_byte(self) -> u8 {
        match self {
            OutputDataRateHz::_0_10 => 0,
            OutputDataRateHz::_0_20 => 1,
            OutputDataRateHz::_0_39 => 2,
            OutputDataRateHz::_0_78 => 3,
            OutputDataRateHz::_1_56 => 4,
            OutputDataRateHz::_3_13 => 5,
            OutputDataRateHz::_6_25 => 6,
            OutputDataRateHz::_12_5 => 7,
            OutputDataRateHz::_25 => 8,
            OutputDataRateHz::_50 => 9,
            OutputDataRateHz::_100 => 10,
            OutputDataRateHz::_200 => 11,
            OutputDataRateHz::_400 => 12,
            OutputDataRateHz::_800 => 13,
            OutputDataRateHz::_1600 => 14,
            OutputDataRateHz::_3200 => 15,
        }
    }

    fn from_byte(value: u8) -> (r: OutputDataRateHz) {
        match value {
            0 => OutputDataRateHz::_0_10,
            1 => OutputDataRateHz::_0_20,
            2 => OutputDataRateHz::_0_39,
            3 => OutputDataRateHz::_0_78,
            4 => OutputDataRateHz::_1_56,
            5 => OutputDataRateHz::_3_13,
            6 => OutputDataRateHz::_6_25,
            7 => OutputDataRateHz::_12_5,
            8 => OutputDataRateHz::_25,
            9 => OutputDataRateHz::_50,
            10 => OutputDataRateHz::_100,
            11 => OutputDataRateHz::_200,
            12 => OutputDataRateHz::_400,
            13 => OutputDataRateHz::_800,
            14 => OutputDataRateHz::_1600,
            _ => OutputDataRateHz::_3200,
        }
    }

    fn to_byte(self) -> (r: u8) {
        match self {
            OutputDataRateHz::_0_10 => 0,
            OutputDataRateHz::_0_20 => 1,
            OutputDataRateHz::_0_39 => 2,
            OutputDataRateHz::_0_78 => 3,
            OutputDataRateHz::_1_56 => 4,
            OutputDataRateHz::_3_13 => 5,
            OutputDataRateHz::_6_25 => 6,
            OutputDataRateHz::_12_5 => 7,
            OutputDataRateHz::_25 => 8,
            OutputDataRateHz::_50 => 9,
            OutputDataRateHz::_100 => 10,
            OutputDataRateHz::_200 => 11,
            OutputDataRateHz::_400 => 12,
            OutputDataRateHz::_800 => 13,
            OutputDataRateHz::_1600 => 14,
            OutputDataRateHz::_3200 => 15,
        }
    }

    fn from_inner_bits(byte: u8, msb: u8, lsb: u8) -> (r: OutputDataRateHz) {
        proof {
            lemma_extract_bounded(byte, msb, lsb);
            lemma_small_masks();
        }
        Self::from_byte(extract_bits(byte, msb, lsb))
    }

    fn set_inner_bits(byte: u8, msb: u8, lsb: u8, value: OutputDataRateHz) -> (r: u8) {
        insert_bits(byte, msb, lsb, value.to_byte())
    }

    proof fn lemma_to_from_byte(self) {
    }
}

impl Sealed for i8 {

}

impl RegisterField for i8 {
    open spec fn spec_valid_byte(value: u8) -> bool {
        true
    }

    open spec fn spec_span_ok(msb: u8, lsb: u8) -> bool {
        true
    }

    open spec fn spec_from_byte(value: u8) -> i8 {
        value as i8
    }

    open spec fn spec_to_byte(self) -> u8 {
        self as u8
    }

    fn from_byte(value: u8) -> (r: i8) {
        value as i8
    }

    fn to_byte(self) -> (r: u8) {
        self as u8
    }

    fn from_inner_bits(byte: u8, msb: u8, lsb: u8) -> (r: i8) {
        extract_bits(byte, msb, lsb) as i8
    }

    fn set_inner_bits(byte: u8, msb: u8, lsb: u8, value: i8) -> (r: u8) {
        insert_bits(byte, msb, lsb, value as u8)
    }

    proof fn lemma_to_from_byte(self) {
        assert((self as u8) as i8 == self) by (bit_vector);
    }
}

} // verus!
