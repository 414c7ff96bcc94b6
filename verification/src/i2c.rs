use vstd::prelude::*;

use crate::data_bus::{BusOp, DataBus, MessageFlags, cmd_read_multiple, cmd_read_single,
    cmd_write_multiple, cmd_write_single};
use crate::register::Register;
use crate::transport::{I2cOp, I2cTransport};

verus! {

// ---------------------------------------------------------------------------
// Two-wire bus adapter
//
// Every transaction sends one command byte: direction and single/multiple
// mode folded with the register's address.  Reads are combined
// write-then-read transactions against the device's fixed bus address; writes
// send the command byte followed by the payload in one transaction.
// ---------------------------------------------------------------------------

/// The two fixed 7-bit bus addresses the device can respond on, selected at
/// construction.
#[derive(Clone, Copy, Debug, PartialEq, Eq, Structural)]
pub enum Address {
    Default,
    Alt,
}

impl Address {
    pub open spec fn spec_value(self) -> u8 {
        match self {
            Address::Default => 0x1D,
            Address::Alt => 0x53,
        }
    }

    pub fn value(self) -> (r: u8)
        ensures
            r == self.spec_value(),
    {
        match self {
            Address::Default => 0x1D,
            Address::Alt => 0x53,
        }
    }
}

/// The declared type of `arrayvec::CapacityError`, the error of an
/// overflowing staging append.
#[verifier::external_type_specification]
#[verifier::external_body]
#[verifier::reject_recursive_types(T)]
pub struct ExCapacityError<T>(arrayvec::CapacityError<T>);

/// The declared type of `arrayvec::ArrayVec`, the fixed-capacity staging
/// buffer of a multi-byte write.
#[verifier::external_type_specification]
#[verifier::external_body]
#[verifier::reject_recursive_types(T)]
pub struct ExArrayVec<T, const CAP: usize>(arrayvec::ArrayVec<T, CAP>);

/// The bytes held by a staging buffer, in order.
pub uninterp spec fn staging_contents(v: arrayvec::ArrayVec<u8, 14>) -> Seq<u8>;

/// Relies on arrayvec::ArrayVec::new: a fresh vector is empty.
#[verifier::external_body]
fn staging_new() -> (v: arrayvec::ArrayVec<u8, 14>)
    ensures
        staging_contents(v) == Seq::<u8>::empty(),
{
    arrayvec::ArrayVec::new()
}

/// Relies on arrayvec::ArrayVec::push: appends the element at the end.  It
/// panics on a full vector, which the precondition rules out.
#[verifier::external_body]
fn staging_push(v: &mut arrayvec::ArrayVec<u8, 14>, byte: u8)
    requires
        staging_contents(*old(v)).len() < 14,
    ensures
        staging_contents(*final(v)) == staging_contents(*old(v)).push(byte),
{
    v.push(byte)
}

/// Relies on arrayvec::ArrayVec::try_extend_from_slice: appends all of
/// `data` if the remaining capacity suffices, and otherwise fails leaving the
/// vector unchanged.
#[verifier::external_body]
fn staging_extend(v: &mut arrayvec::ArrayVec<u8, 14>, data: &[u8]) -> (r: Result<
    (),
    arrayvec::CapacityError,
>)
    ensures
        r is Ok <==> staging_contents(*old(v)).len() + data@.len() <= 14,
        r is Ok ==> staging_contents(*final(v)) == staging_contents(*old(v)) + data@,
        r is Err ==> staging_contents(*final(v)) == staging_contents(*old(v)),
{
    v.try_extend_from_slice(data)
}

/// Relies on arrayvec::ArrayVec::as_slice: exposes exactly the held bytes.
#[verifier::external_body]
fn staging_slice(v: &arrayvec::ArrayVec<u8, 14>) -> (r: &[u8])
    ensures
        r@ == staging_contents(*v),
{
    v.as_slice()
}

/// The errors of the two-wire adapter.  Transport errors are surfaced
/// verbatim and never retried.
#[derive(Debug)]
pub enum I2CError<E> {
    /// The transport failed during a combined write-then-read transaction.
    WriteRead(E),
    /// The transport failed during a write transaction.
    Write(E),
    /// The payload of a multi-byte write exceeds the staging buffer.
    Capacity(arrayvec::CapacityError),
}

/// The two-wire bus adapter: owns the addressed transport exclusively and
/// frames every register operation as one command byte plus payload.
pub struct I2CBus<T: I2cTransport> {
    bus: T,
    address: Address,
    log: Ghost<Seq<BusOp>>,
}

impl<T: I2cTransport> I2CBus<T> {
    /// The underlying transport.
    pub closed spec fn spec_transport(self) -> T {
        self.bus
    }

    /// The device bus address selected at construction.
    pub closed spec fn spec_device_address(self) -> Address {
        self.address
    }

    pub fn new(bus: T, address: Address) -> (r: I2CBus<T>)
        ensures
            r.spec_transport() == bus,
            r.spec_device_address() == address,
            r.log() == Seq::<BusOp>::empty(),
            r.spec_raw() == bus,
    {
        I2CBus { bus, address, log: Ghost(Seq::empty()) }
    }
}

impl<T: I2cTransport> DataBus for I2CBus<T> {
    type Error = I2CError<T::Error>;

    type RawBus = T;

    closed spec fn log(&self) -> Seq<BusOp> {
        self.log@
    }

    closed spec fn spec_raw(self) -> T {
        self.bus
    }

    /// One combined transaction: the multi-read command byte out, then the
    /// whole buffer back.  An empty buffer succeeds without touching the
    /// transport.
    fn read_all<R: Register>(&mut self, buffer: &mut Vec<u8>) -> (r: Result<(), Self::Error>)
        ensures
            old(buffer)@.len() == 0 ==> r is Ok && final(self).spec_transport().ops() == old(
                self,
            ).spec_transport().ops() && final(buffer)@ == old(buffer)@,
            r is Ok && old(buffer)@.len() > 0 ==> final(self).spec_transport().ops() == old(
                self,
            ).spec_transport().ops().push(
                I2cOp::WriteRead {
                    addr: old(self).spec_device_address().spec_value(),
                    sent: seq![cmd_read_multiple(R::spec_address())],
                    recv: final(buffer)@,
                },
            ),
            r is Err ==> final(self).spec_transport().ops() == old(self).spec_transport().ops()
                && r matches Err(I2CError::WriteRead(_)),
            final(self).spec_device_address() == old(self).spec_device_address(),
    {
        if buffer.len() == 0 {
            self.log = Ghost(
                self.log@.push(BusOp::ReadMany { addr: R::spec_address(), data: buffer@ }),
            );
            return Ok(());
        }
        let cmd = MessageFlags::read().union(MessageFlags::multiple()).register::<R>();
        let mut sent: Vec<u8> = Vec::new();
        sent.push(cmd);
        let addr = self.address.value();
        match self.bus.write_read(addr, sent.as_slice(), buffer) {
            Ok(()) => {
                proof {
                    assert(sent@ =~= seq![cmd_read_multiple(R::spec_address())]);
                }
                self.log = Ghost(
                    self.log@.push(
                        BusOp::ReadMany { addr: R::spec_address(), data: buffer@ },
                    ),
                );
                Ok(())
            },
            Err(e) => Err(I2CError::WriteRead(e)),
        }
    }

    /// The multi-write command byte and the payload are staged into the
    /// bounded scratch buffer and sent as one transaction; a payload that
    /// does not fit is a capacity error, reported before any transport
    /// activity.  An empty buffer succeeds without touching the transport.
    fn write_all<R: Register>(&mut self, buffer: &[u8]) -> (r: Result<(), Self::Error>)
        ensures
            buffer@.len() == 0 ==> r is Ok && final(self).spec_transport().ops() == old(
                self,
            ).spec_transport().ops(),
            r is Ok && buffer@.len() > 0 ==> final(self).spec_transport().ops() == old(
                self,
            ).spec_transport().ops().push(
                I2cOp::Write {
                    addr: old(self).spec_device_address().spec_value(),
                    data: seq![cmd_write_multiple(R::spec_address())] + buffer@,
                },
            ),
            r matches Err(I2CError::Capacity(_)) <==> buffer@.len() > 13,
            r is Err ==> final(self).spec_transport().ops() == old(self).spec_transport().ops() && (
            r matches Err(I2CError::Capacity(_)) || r matches Err(I2CError::Write(_))),
            final(self).spec_device_address() == old(self).spec_device_address(),
    {
        if buffer.len() == 0 {
            self.log = Ghost(
                self.log@.push(BusOp::WriteMany { addr: R::spec_address(), data: buffer@ }),
            );
            return Ok(());
        }
        let cmd = MessageFlags::write().union(MessageFlags::multiple()).register::<R>();
        let mut staged = staging_new();
        staging_push(&mut staged, cmd);
        match staging_extend(&mut staged, buffer) {
            Err(e) => Err(I2CError::Capacity(e)),
            Ok(()) => {
                proof {
                    assert(staging_contents(staged) =~= seq![
                        cmd_write_multiple(R::spec_address()),
                    ] + buffer@);
                }
                let addr = self.address.value();
                match self.bus.write(addr, staging_slice(&staged)) {
                    Ok(()) => {
                        self.log = Ghost(
                            self.log@.push(
                                BusOp::WriteMany { addr: R::spec_address(), data: buffer@ },
                            ),
                        );
                        Ok(())
                    },
                    Err(e) => Err(I2CError::Write(e)),
                }
            },
        }
    }

    /// One combined transaction: the single-read command byte out, one byte
    /// back.
    fn read<R: Register>(&mut self) -> (r: Result<u8, Self::Error>)
        ensures
            r matches Ok(data) ==> final(self).spec_transport().ops() == old(
                self,
            ).spec_transport().ops().push(
                I2cOp::WriteRead {
                    addr: old(self).spec_device_address().spec_value(),
                    sent: seq![cmd_read_single(R::spec_address())],
                    recv: seq![data],
                },
            ),
            r is Err ==> final(self).spec_transport().ops() == old(self).spec_transport().ops()
                && r matches Err(I2CError::WriteRead(_)),
            final(self).spec_device_address() == old(self).spec_device_address(),
    {
        let cmd = MessageFlags::read().union(MessageFlags::single()).register::<R>();
        let mut sent: Vec<u8> = Vec::new();
        sent.push(cmd);
        let mut buf: Vec<u8> = Vec::new();
        buf.push(0);
        let addr = self.address.value();
        match self.bus.write_read(addr, sent.as_slice(), &mut buf) {
            Ok(()) => {
                let data = buf[0];
                proof {
                    assert(sent@ =~= seq![cmd_read_single(R::spec_address())]);
                    assert(buf@ =~= seq![data]);
                }
                self.log = Ghost(
                    self.log@.push(BusOp::ReadOne { addr: R::spec_address(), data }),
                );
                Ok(data)
            },
            Err(e) => Err(I2CError::WriteRead(e)),
        }
    }

    /// One transaction of two bytes: the single-write command byte, then the
    /// payload byte.
    fn write<R: Register>(&mut self, data: u8) -> (r: Result<(), Self::Error>)
        ensures
            r is Ok ==> final(self).spec_transport().ops() == old(self).spec_transport().ops().push(
                I2cOp::Write {
                    addr: old(self).spec_device_address().spec_value(),
                    data: seq![cmd_write_single(R::spec_address()), data],
                },
            ),
            r is Err ==> final(self).spec_transport().ops() == old(self).spec_transport().ops()
                && r matches Err(I2CError::Write(_)),
            final(self).spec_device_address() == old(self).spec_device_address(),
    {
        let cmd = MessageFlags::write().union(MessageFlags::single()).register::<R>();
        let mut msg: Vec<u8> = Vec::new();
        msg.push(cmd);
        msg.push(data);
        let addr = self.address.value();
        match self.bus.write(addr, msg.as_slice()) {
            Ok(()) => {
                proof {
                    assert(msg@ =~= seq![cmd_write_single(R::spec_address()), data]);
                }
                self.log = Ghost(
                    self.log@.push(BusOp::WriteOne { addr: R::spec_address(), data }),
                );
                Ok(())
            },
            Err(e) => Err(I2CError::Write(e)),
        }
    }

    fn destroy(self) -> (r: T)
        ensures
            r == self.spec_transport(),
    {
        self.bus
    }
}

} // verus!
