use vstd::prelude::*;

use crate::Sealed;
use crate::field::{
    RegisterField, spec_encode_bits, spec_extract_bits,
};

verus! {

// ---------------------------------------------------------------------------
// Register identities
//
// A register identity is a unit type carrying the register's fixed 7-bit
// address and its access mode through the sealed trait hierarchy.  The set of
// identities is closed: nothing outside this crate can implement `Register`.
// ---------------------------------------------------------------------------

/// A named, addressed byte-wide storage location on the device.
/// This trait is sealed to disallow external implementations.
pub trait Register: Sealed {
    /// The register's fixed address.
    spec fn spec_address() -> u8;

    fn address() -> (r: u8)
        ensures
            r == Self::spec_address(),
    ;
}

/// A register the device allows to be read.
/// This trait is sealed to disallow external implementations.
pub trait Readable: Register {

}

/// A register the device allows to be written.
/// This trait is sealed to disallow external implementations.
pub trait Writable: Readable {

}

// ---------------------------------------------------------------------------
// The register value handle
// ---------------------------------------------------------------------------

/// A single raw register byte with typed field accessors.  Created zeroed for
/// a write, or filled from a transport read; owned by the caller for the
/// duration of one access.
#[derive(Clone, Copy, Debug, PartialEq, Eq, Structural)]
pub struct RegisterHandle {
    raw: u8,
}

impl RegisterHandle {
    /// The raw byte held by the handle.
    pub closed spec fn spec_raw(self) -> u8 {
        self.raw
    }

    /// Wrap a byte read from the device.
    pub fn fill(data: u8) -> (h: RegisterHandle)
        ensures
            h.spec_raw() == data,
    {
        RegisterHandle { raw: data }
    }

    /// The raw byte to be sent to the device.
    pub fn into_raw(self) -> (r: u8)
        ensures
            r == self.spec_raw(),
    {
        self.raw
    }

    /// Decode the field laid out in bits [lsb, msb] of the byte.
    pub fn field<F: RegisterField>(&self, msb: u8, lsb: u8) -> (r: F)
        requires
            lsb <= msb <= 7,
            F::spec_span_ok(msb, lsb),
        ensures
            r == F::spec_from_byte(spec_extract_bits(self.spec_raw(), msb, lsb)),
    {
        F::from_inner_bits(self.raw, msb, lsb)
    }

    /// Encode `value` into the field laid out in bits [lsb, msb], leaving
    /// every bit outside that span untouched.
    pub fn set_field<F: RegisterField>(&mut self, msb: u8, lsb: u8, value: F)
        requires
            lsb <= msb <= 7,
            F::spec_span_ok(msb, lsb),
        ensures
            final(self).spec_raw() == spec_encode_bits(
                old(self).spec_raw(),
                msb,
                lsb,
                value.spec_to_byte(),
            ),
    {
        self.raw = F::set_inner_bits(self.raw, msb, lsb, value);
    }
}

impl Default for RegisterHandle {
    /// The zeroed handle a write operation starts from.
    fn default() -> (h: RegisterHandle)
        ensures
            h.spec_raw() == 0,
    {
        RegisterHandle { raw: 0 }
    }
}

/// Device ID register, at address 0x00.
#[allow(non_camel_case_types)]
pub struct DEVID;

impl Sealed for DEVID {

}

impl Register for DEVID {
    open spec fn spec_address() -> u8 {
        0x00
    }

    fn address() -> (r: u8) {
        0x00
    }
}

impl Readable for DEVID {

}

/// Tap threshold register, at address 0x1D.
#[allow(non_camel_case_types)]
pub struct THRESH_TAP;

impl Sealed for THRESH_TAP {

}

impl Register for THRESH_TAP {
    open spec fn spec_address() -> u8 {
        0x1D
    }

    fn address() -> (r: u8) {
        0x1D
    }
}

impl Readable for THRESH_TAP {

}

impl Writable for THRESH_TAP {

}

/// X-axis offset register, at address 0x1E.
#[allow(non_camel_case_types)]
pub struct OFSX;

impl Sealed for OFSX {

}

impl Register for OFSX {
    open spec fn spec_address() -> u8 {
        0x1E
    }

    fn address() -> (r: u8) {
        0x1E
    }
}

impl Readable for OFSX {

}

impl Writable for OFSX {

}

/// Y-axis offset register, at address 0x1F.
#[allow(non_camel_case_types)]
pub struct OFSY;

impl Sealed for OFSY {

}

impl Register for OFSY {
    open spec fn spec_address() -> u8 {
        0x1F
    }

    fn address() -> (r: u8) {
        0x1F
    }
}

impl Readable for OFSY {

}

impl Writable for OFSY {

}

/// Z-axis offset register, at address 0x20.
#[allow(non_camel_case_types)]
pub struct OFSZ;

impl Sealed for OFSZ {

}

impl Register for OFSZ {
    open spec fn spec_address() -> u8 {
        0x20
    }

    fn address() -> (r: u8) {
        0x20
    }
}

impl Readable for OFSZ {

}

impl Writable for OFSZ {

}

/// Tap duration register, at address 0x21.
#[allow(non_camel_case_types)]
pub struct DUR;

impl Sealed for DUR {

}

impl Register for DUR {
    open spec fn spec_address() -> u8 {
        0x21
    }

    fn address() -> (r: u8) {
        0x21
    }
}

impl Readable for DUR {

}

impl Writable for DUR {

}

/// Tap latency register, at address 0x22.
#[allow(non_camel_case_types)]
pub struct Latent;

impl Sealed for Latent {

}

impl Register for Latent {
    open spec fn spec_address() -> u8 {
        0x22
    }

    fn address() -> (r: u8) {
        0x22
    }
}

impl Readable for Latent {

}

impl Writable for Latent {

}

/// Tap window register, at address 0x23.
#[allow(non_camel_case_types)]
pub struct Window;

impl Sealed for Window {

}

impl Register for Window {
    open spec fn spec_address() -> u8 {
        0x23
    }

    fn address() -> (r: u8) {
        0x23
    }
}

impl Readable for Window {

}

impl Writable for Window {

}

/// Activity threshold register, at address 0x24.
#[allow(non_camel_case_types)]
pub struct THRESH_ACT;

impl Sealed for THRESH_ACT {

}

impl Register for THRESH_ACT {
    open spec fn spec_address() -> u8 {
        0x24
    }

    fn address() -> (r: u8) {
        0x24
    }
}

impl Readable for THRESH_ACT {

}

impl Writable for THRESH_ACT {

}

/// Inactivity threshold register, at address 0x25.
#[allow(non_camel_case_types)]
pub struct THRESH_INACT;

impl Sealed for THRESH_INACT {

}

impl Register for THRESH_INACT {
    open spec fn spec_address() -> u8 {
        0x25
    }

    fn address() -> (r: u8) {
        0x25
    }
}

impl Readable for THRESH_INACT {

}

impl Writable for THRESH_INACT {

}

/// Inactivity time register, at address 0x26.
#[allow(non_camel_case_types)]
pub struct TIME_INACT;

impl Sealed for TIME_INACT {

}

impl Register for TIME_INACT {
    open spec fn spec_address() -> u8 {
        0x26
    }

    fn address() -> (r: u8) {
        0x26
    }
}

impl Readable for TIME_INACT {

}

impl Writable for TIME_INACT {

}

/// Axis enable control for activity and inactivity detection register, at address 0x27.
#[allow(non_camel_case_types)]
pub struct ACT_INACT_CTL;

impl Sealed for ACT_INACT_CTL {

}

impl Register for ACT_INACT_CTL {
    open spec fn spec_address() -> u8 {
        0x27
    }

    fn address() -> (r: u8) {
        0x27
    }
}

impl Readable for ACT_INACT_CTL {

}

impl Writable for ACT_INACT_CTL {

}

/// Free-fall threshold register, at address 0x28.
#[allow(non_camel_case_types)]
pub struct THRESH_FF;

impl Sealed for THRESH_FF {

}

impl Register for THRESH_FF {
    open spec fn spec_address() -> u8 {
        0x28
    }

    fn address() -> (r: u8) {
        0x28
    }
}

impl Readable for THRESH_FF {

}

impl Writable for THRESH_FF {

}

/// Free-fall time register, at address 0x29.
#[allow(non_camel_case_types)]
pub struct TIME_FF;

impl Sealed for TIME_FF {

}

impl Register for TIME_FF {
    open spec fn spec_address() -> u8 {
        0x29
    }

    fn address() -> (r: u8) {
        0x29
    }
}

impl Readable for TIME_FF {

}

impl Writable for TIME_FF {

}

/// Axis control for single tap/double tap register, at address 0x2A.
#[allow(non_camel_case_types)]
pub struct TAP_AXES;

impl Sealed for TAP_AXES {

}

impl Register for TAP_AXES {
    open spec fn spec_address() -> u8 {
        0x2A
    }

    fn address() -> (r: u8) {
        0x2A
    }
}

impl Readable for TAP_AXES {

}

impl Writable for TAP_AXES {

}

/// Source of single tap/double tap register, at address 0x2B.
#[allow(non_camel_case_types)]
pub struct ACT_TAP_STATUS;

impl Sealed for ACT_TAP_STATUS {

}

impl Register for ACT_TAP_STATUS {
    open spec fn spec_address() -> u8 {
        0x2B
    }

    fn address() -> (r: u8) {
        0x2B
    }
}

impl Readable for ACT_TAP_STATUS {

}

/// Data rate and power mode control register, at address 0x2C.
#[allow(non_camel_case_types)]
pub struct BW_RATE;

impl Sealed for BW_RATE {

}

impl Register for BW_RATE {
    open spec fn spec_address() -> u8 {
        0x2C
    }

    fn address() -> (r: u8) {
        0x2C
    }
}

impl Readable for BW_RATE {

}

impl Writable for BW_RATE {

}

/// Power-saving features control register, at address 0x2D.
#[allow(non_camel_case_types)]
pub struct POWER_CTL;

impl Sealed for POWER_CTL {

}

impl Register for POWER_CTL {
    open spec fn spec_address() -> u8 {
        0x2D
    }

    fn address() -> (r: u8) {
        0x2D
    }
}

impl Readable for POWER_CTL {

}

impl Writable for POWER_CTL {

}

/// Interrupt enable control register, at address 0x2E.
#[allow(non_camel_case_types)]
pub struct INT_ENABLE;

impl Sealed for INT_ENABLE {

}

impl Register for INT_ENABLE {
    open spec fn spec_address() -> u8 {
        0x2E
    }

    fn address() -> (r: u8) {
        0x2E
    }
}

impl Readable for INT_ENABLE {

}

impl Writable for INT_ENABLE {

}

/// Interrupt mapping control register, at address 0x2F.
#[allow(non_camel_case_types)]
pub struct INT_MAP;

impl Sealed for INT_MAP {

}

impl Register for INT_MAP {
    open spec fn spec_address() -> u8 {
        0x2F
    }

    fn address() -> (r: u8) {
        0x2F
    }
}

impl Readable for INT_MAP {

}

impl Writable for INT_MAP {

}

/// Source of interrupts register, at address 0x30.
#[allow(non_camel_case_types)]
pub struct INT_SOURCE;

impl Sealed for INT_SOURCE {

}

impl Register for INT_SOURCE {
    open spec fn spec_address() -> u8 {
        0x30
    }

    fn address() -> (r: u8) {
        0x30
    }
}

impl Readable for INT_SOURCE {

}

/// Data format control register, at address 0x31.
#[allow(non_camel_case_types)]
pub struct DATA_FORMAT;

impl Sealed for DATA_FORMAT {

}

impl Register for DATA_FORMAT {
    open spec fn spec_address() -> u8 {
        0x31
    }

    fn address() -> (r: u8) {
        0x31
    }
}

impl Readable for DATA_FORMAT {

}

impl Writable for DATA_FORMAT {

}

/// X-Axis Data 0 register, at address 0x32.
#[allow(non_camel_case_types)]
pub struct DATAX0;

impl Sealed for DATAX0 {

}

impl Register for DATAX0 {
    open spec fn spec_address() -> u8 {
        0x32
    }

    fn address() -> (r: u8) {
        0x32
    }
}

impl Readable for DATAX0 {

}

/// X-Axis Data 1 register, at address 0x33.
#[allow(non_camel_case_types)]
pub struct DATAX1;

impl Sealed for DATAX1 {

}

impl Register for DATAX1 {
    open spec fn spec_address() -> u8 {
        0x33
    }

    fn address() -> (r: u8) {
        0x33
    }
}

impl Readable for DATAX1 {

}

/// Y-Axis Data 0 register, at address 0x34.
#[allow(non_camel_case_types)]
pub struct DATAY0;

impl Sealed for DATAY0 {

}

impl Register for DATAY0 {
    open spec fn spec_address() -> u8 {
        0x34
    }

    fn address() -> (r: u8) {
        0x34
    }
}

impl Readable for DATAY0 {

}

/// Y-Axis Data 1 register, at address 0x35.
#[allow(non_camel_case_types)]
pub struct DATAY1;

impl Sealed for DATAY1 {

}

impl Register for DATAY1 {
    open spec fn spec_address() -> u8 {
        0x35
    }

    fn address() -> (r: u8) {
        0x35
    }
}

impl Readable for DATAY1 {

}

/// Z-Axis Data 0 register, at address 0x36.
#[allow(non_camel_case_types)]
pub struct DATAZ0;

impl Sealed for DATAZ0 {

}

impl Register for DATAZ0 {
    open spec fn spec_address() -> u8 {
        0x36
    }

    fn address() -> (r: u8) {
        0x36
    }
}

impl Readable for DATAZ0 {

}

/// Z-Axis Data 1 register, at address 0x37.
#[allow(non_camel_case_types)]
pub struct DATAZ1;

impl Sealed for DATAZ1 {

}

impl Register for DATAZ1 {
    open spec fn spec_address() -> u8 {
        0x37
    }

    fn address() -> (r: u8) {
        0x37
    }
}

impl Readable for DATAZ1 {

}

/// FIFO control register, at address 0x38.
#[allow(non_camel_case_types)]
pub struct FIFO_CTL;

impl Sealed for FIFO_CTL {

}

impl Register for FIFO_CTL {
    open spec fn spec_address() -> u8 {
        0x38
    }

    fn address() -> (r: u8) {
        0x38
    }
}

impl Readable for FIFO_CTL {

}

impl Writable for FIFO_CTL {

}

/// FIFO status register, at address 0x39.
#[allow(non_camel_case_types)]
pub struct FIFO_STATUS;

impl Sealed for FIFO_STATUS {

}

impl Register for FIFO_STATUS {
    open spec fn spec_address() -> u8 {
        0x39
    }

    fn address() -> (r: u8) {
        0x39
    }
}

impl Readable for FIFO_STATUS {

}

} // verus!
