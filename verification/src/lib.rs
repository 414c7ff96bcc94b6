use vstd::prelude::*;

pub mod data_bus;
pub mod field;
pub mod i2c;
pub mod mock;
pub mod register;
pub mod spi;
pub mod transport;

use crate::data_bus::{BusOp, DataBus};
use crate::i2c::{Address, I2CBus};
use crate::register::{Readable, RegisterHandle, Writable};
use crate::spi::SPIBus;
use crate::transport::{I2cTransport, SelectPin, SpiTransport};

verus! {

/// Marker super trait used to close the register trait hierarchy against
/// implementations outside this crate.
pub trait Sealed {}

/// The device handle: binds one exclusively-owned bus adapter and exposes the
/// register operations over it.
pub struct ADXL345<BUS> {
    bus: BUS,
}

impl<BUS: DataBus> ADXL345<BUS> {
    /// The bus adapter the device talks through.
    pub closed spec fn spec_bus(self) -> BUS {
        self.bus
    }

    /// Relinquish the underlying transport back to the caller: exactly the
    /// value(s) the bus adapter owns, with no transaction issued.
    pub fn destroy(self) -> (r: BUS::RawBus)
        ensures
            r == self.spec_bus().spec_raw(),
    {
        self.bus.destroy()
    }

    /// Read the register `R` into a fresh handle.  A failed read leaves the
    /// bus history as it was and passes the bus error through.
    pub fn read<R: Readable>(&mut self) -> (r: Result<RegisterHandle, BUS::Error>)
        ensures
            r matches Ok(h) ==> final(self).spec_bus().log() == old(self).spec_bus().log().push(
                BusOp::ReadOne { addr: R::spec_address(), data: h.spec_raw() },
            ),
            r is Err ==> final(self).spec_bus().log() == old(self).spec_bus().log(),
    {
        match self.bus.read::<R>() {
            Ok(data) => Ok(RegisterHandle::fill(data)),
            Err(e) => Err(e),
        }
    }

    /// Write the register `R` with the byte the builder `f` makes out of a
    /// zeroed handle.
    pub fn write<R: Writable, F: FnOnce(RegisterHandle) -> RegisterHandle>(&mut self, f: F) -> (r:
        Result<(), BUS::Error>)
        requires
            forall|h: RegisterHandle| h.spec_raw() == 0 ==> call_requires(f, (h,)),
        ensures
            r is Ok ==> exists|h0: RegisterHandle, h2: RegisterHandle|
                h0.spec_raw() == 0 && #[trigger] call_ensures(f, (h0,), h2)
                    && final(self).spec_bus().log() == old(self).spec_bus().log().push(
                    BusOp::WriteOne { addr: R::spec_address(), data: h2.spec_raw() },
                ),
            r is Err ==> final(self).spec_bus().log() == old(self).spec_bus().log(),
    {
        let start = RegisterHandle::default();
        let built = f(start);
        match self.bus.write::<R>(built.into_raw()) {
            Ok(()) => Ok(()),
            Err(e) => Err(e),
        }
    }

    /// Read the register `R`, let the builder `f` change some of its fields,
    /// and write the result back.  The read and the write are two separate
    /// bus transactions: a concurrent writer of the same register between
    /// them is not defended against, so callers must serialize access to a
    /// given bus.
    pub fn modify<R: Writable, F: FnOnce(RegisterHandle) -> RegisterHandle>(&mut self, f: F) -> (r:
        Result<(), BUS::Error>)
        requires
            forall|h: RegisterHandle| #[trigger] call_requires(f, (h,)),
        ensures
            r is Ok ==> exists|h1: RegisterHandle, h2: RegisterHandle|
                #[trigger] call_ensures(f, (h1,), h2)
                    && final(self).spec_bus().log() == old(self).spec_bus().log().push(
                    BusOp::ReadOne { addr: R::spec_address(), data: h1.spec_raw() },
                ).push(BusOp::WriteOne { addr: R::spec_address(), data: h2.spec_raw() }),
            r is Err ==> final(self).spec_bus().log() == old(self).spec_bus().log() || (exists|
                b: u8,
            |
                final(self).spec_bus().log() == #[trigger] old(self).spec_bus().log().push(
                    BusOp::ReadOne { addr: R::spec_address(), data: b },
                )),
    {
        let current = match self.bus.read::<R>() {
            Ok(data) => data,
            Err(e) => {
                return Err(e);
            },
        };
        let built = f(RegisterHandle::fill(current));
        match self.bus.write::<R>(built.into_raw()) {
            Ok(()) => Ok(()),
            Err(e) => Err(e),
        }
    }
}

impl<SPI: SpiTransport, CS: SelectPin> ADXL345<SPIBus<SPI, CS>> {
    /// Drive the device over the four-wire bus, with `cs` as its chip-select
    /// line.
    pub fn from_spi_cs(bus: SPI, cs: CS) -> (r: Self)
        ensures
            r.spec_bus().spec_transport() == bus,
            r.spec_bus().spec_select() == cs,
            r.spec_bus().log() == Seq::<BusOp>::empty(),
            r.spec_bus().spec_raw() == (bus, cs),
    {
        ADXL345 { bus: SPIBus::new(bus, cs) }
    }
}

impl<T: I2cTransport> ADXL345<I2CBus<T>> {
    /// Drive the device over the two-wire bus, at one of its two fixed bus
    /// addresses.
    pub fn from_i2c(bus: T, address: Address) -> (r: Self)
        ensures
            r.spec_bus().spec_transport() == bus,
            r.spec_bus().spec_device_address() == address,
            r.spec_bus().log() == Seq::<BusOp>::empty(),
            r.spec_bus().spec_raw() == bus,
    {
        ADXL345 { bus: I2CBus::new(bus, address) }
    }
}

} // verus!
