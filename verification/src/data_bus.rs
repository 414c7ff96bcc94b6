use vstd::prelude::*;

use crate::register::Register;

verus! {

// ---------------------------------------------------------------------------
// Command bytes
//
// Every transaction opens with one command byte: bit 7 carries the direction,
// bit 6 the multiple-bytes flag, bits 5-0 the register address.  The byte is
// formed by intersecting the union of the chosen masks with the register
// address.
// ---------------------------------------------------------------------------

/// The command byte of a single-register read.
pub open spec fn cmd_read_single(addr: u8) -> u8 {
    (0b1011_1111u8 | 0b0011_1111u8) & addr
}

/// The command byte of a multi-register auto-incrementing read.
pub open spec fn cmd_read_multiple(addr: u8) -> u8 {
    (0b1011_1111u8 | 0b0111_1111u8) & addr
}

/// The command byte of a single-register write.
pub open spec fn cmd_write_single(addr: u8) -> u8 {
    (0b0011_1111u8 | 0b0011_1111u8) & addr
}

/// The command byte of a multi-register auto-incrementing write.
pub open spec fn cmd_write_multiple(addr: u8) -> u8 {
    (0b0011_1111u8 | 0b0111_1111u8) & addr
}

/// Mask set from which the command byte of a transaction is built.
#[derive(Clone, Copy, Debug, PartialEq, Eq, Structural)]
pub struct MessageFlags {
    bits: u8,
}

impl MessageFlags {
    pub closed spec fn spec_bits(self) -> u8 {
        self.bits
    }

    /// Masks of a read transaction.
    pub fn read() -> (r: MessageFlags)
        ensures
            r.spec_bits() == 0b1011_1111u8,
    {
        MessageFlags { bits: 0b1011_1111 }
    }

    /// Masks of a write transaction.
    pub fn write() -> (r: MessageFlags)
        ensures
            r.spec_bits() == 0b0011_1111u8,
    {
        MessageFlags { bits: 0b0011_1111 }
    }

    /// Masks of a transaction addressing a single register.
    pub fn single() -> (r: MessageFlags)
        ensures
            r.spec_bits() == 0b0011_1111u8,
    {
        MessageFlags { bits: 0b0011_1111 }
    }

    /// Masks of a transaction addressing multiple consecutive registers.
    pub fn multiple() -> (r: MessageFlags)
        ensures
            r.spec_bits() == 0b0111_1111u8,
    {
        MessageFlags { bits: 0b0111_1111 }
    }

    pub fn union(self, other: MessageFlags) -> (r: MessageFlags)
        ensures
            r.spec_bits() == self.spec_bits() | other.spec_bits(),
    {
        MessageFlags { bits: self.bits | other.bits }
    }

    /// The command byte addressing register `R` under these masks.
    pub fn register<R: Register>(self) -> (r: u8)
        ensures
            r == self.spec_bits() & R::spec_address(),
    {
        self.bits & R::address()
    }
}

// ---------------------------------------------------------------------------
// The uniform bus contract
// ---------------------------------------------------------------------------

/// One completed register-level operation, as seen by the register access
/// layer, independent of the wire protocol underneath.
#[allow(inconsistent_fields)]
pub enum BusOp {
    ReadOne { addr: u8, data: u8 },
    WriteOne { addr: u8, data: u8 },
    ReadMany { addr: u8, data: Seq<u8> },
    WriteMany { addr: u8, data: Seq<u8> },
}

/// The uniform register bus: single and auto-incrementing multi-byte reads
/// and writes against one register address.  Both wire adapters implement it;
/// the register access layer consumes it.  Operations block until the
/// underlying transport finishes and report its failure through the result,
/// never by aborting.
pub trait DataBus: Sized {
    type Error;

    type RawBus;

    /// The register-level operations completed so far, oldest first.
    spec fn log(&self) -> Seq<BusOp>;

    /// The underlying transport value(s) the adapter owns, as `destroy`
    /// relinquishes them.
    spec fn spec_raw(self) -> Self::RawBus;

    /// Auto-incrementing read starting at `R`'s address, filling `buffer` in
    /// address order.  An empty buffer is a no-op success.  A failed read
    /// records nothing and keeps the buffer's length.
    fn read_all<R: Register>(&mut self, buffer: &mut Vec<u8>) -> (r: Result<(), Self::Error>)
        ensures
            final(buffer)@.len() == old(buffer)@.len(),
            r is Ok ==> final(self).log() == old(self).log().push(
                BusOp::ReadMany { addr: R::spec_address(), data: final(buffer)@ },
            ),
            r is Err ==> final(self).log() == old(self).log(),
    ;

    /// Auto-incrementing write starting at `R`'s address.  An empty buffer is
    /// a no-op success.  A failed write records nothing.
    fn write_all<R: Register>(&mut self, buffer: &[u8]) -> (r: Result<(), Self::Error>)
        ensures
            r is Ok ==> final(self).log() == old(self).log().push(
                BusOp::WriteMany { addr: R::spec_address(), data: buffer@ },
            ),
            r is Err ==> final(self).log() == old(self).log(),
    ;

    /// Single-byte read of `R`'s address.  A failed read records nothing.
    fn read<R: Register>(&mut self) -> (r: Result<u8, Self::Error>)
        ensures
            r matches Ok(data) ==> final(self).log() == old(self).log().push(
                BusOp::ReadOne { addr: R::spec_address(), data },
            ),
            r is Err ==> final(self).log() == old(self).log(),
    ;

    /// Single-byte write of `R`'s address.  A failed write records nothing.
    fn write<R: Register>(&mut self, data: u8) -> (r: Result<(), Self::Error>)
        ensures
            r is Ok ==> final(self).log() == old(self).log().push(
                BusOp::WriteOne { addr: R::spec_address(), data },
            ),
            r is Err ==> final(self).log() == old(self).log(),
    ;

    /// Relinquish the underlying transport back to the caller: exactly the
    /// value(s) the adapter owns, with no transaction issued.
    fn destroy(self) -> (r: Self::RawBus)
        ensures
            r == self.spec_raw(),
    ;
}

} // verus!
