use vstd::prelude::*;

verus! {

// ---------------------------------------------------------------------------
// Wire-protocol collaborators
//
// The driver core does not implement the wire protocols themselves; it drives
// already-initialized, exclusively-owned transport handles.  Each transport is
// modelled by the ordered history of transactions it has successfully
// completed, which the adapter contracts are stated over.
// ---------------------------------------------------------------------------

/// One completed transaction on a two-wire addressed transport.
pub enum I2cOp {
    /// Bytes written to the device at the given bus address.
    Write { addr: u8, data: Seq<u8> },
    /// A combined write-then-read transaction against the given bus address:
    /// `sent` went out, then `recv` came back.
    WriteRead { addr: u8, sent: Seq<u8>, recv: Seq<u8> },
}

/// An addressed transport that can write, and write-then-read, in one
/// blocking transaction.  Implementations wrap the actual wire driver; the
/// verified adapters are proved against this contract.
pub trait I2cTransport {
    type Error;

    /// The transactions completed so far, oldest first.  Implementations
    /// the verifier reads override this; a wire driver outside its view
    /// leaves the default, which stands for no recorded history.
    open spec fn ops(&self) -> Seq<I2cOp> {
        Seq::empty()
    }

    /// Write `data` to the device at bus address `addr`, blocking until the
    /// transaction completes or fails.
    fn write(&mut self, addr: u8, data: &[u8]) -> (r: Result<(), Self::Error>)
        ensures
            r is Ok ==> final(self).ops() == old(self).ops().push(
                I2cOp::Write { addr, data: data@ },
            ),
            r is Err ==> final(self).ops() == old(self).ops(),
    ;

    /// Write `sent` to the device at bus address `addr`, then read exactly
    /// `buffer.len()` bytes back into `buffer`, in one combined transaction.
    /// The buffer keeps its length whatever the outcome.
    fn write_read(&mut self, addr: u8, sent: &[u8], buffer: &mut Vec<u8>) -> (r: Result<
        (),
        Self::Error,
    >)
        ensures
            final(buffer)@.len() == old(buffer)@.len(),
            r is Ok ==> final(self).ops() == old(self).ops().push(
                I2cOp::WriteRead { addr, sent: sent@, recv: final(buffer)@ },
            ),
            r is Err ==> final(self).ops() == old(self).ops(),
    ;
}

/// Which phase of a full-duplex word exchange failed: sending the word out,
/// or reading the word that came back.
#[derive(Debug)]
pub enum SpiFault<E> {
    Transfer(E),
    Read(E),
}

/// A full-duplex synchronous transport exchanging 16-bit words.
pub trait SpiTransport {
    type Error;

    /// The word exchanges completed so far as (sent, received) pairs, oldest
    /// first.  Implementations the verifier reads override this; a wire
    /// driver outside its view leaves the default, which stands for no
    /// recorded history.
    open spec fn exchanged(&self) -> Seq<(u16, u16)> {
        Seq::empty()
    }

    /// Send `word` and read the word clocked back in the same transaction,
    /// blocking until both complete or one fails.
    fn exchange(&mut self, word: u16) -> (r: Result<u16, SpiFault<Self::Error>>)
        ensures
            r matches Ok(resp) ==> final(self).exchanged() == old(self).exchanged().push(
                (word, resp),
            ),
            r is Err ==> final(self).exchanged() == old(self).exchanged(),
    ;
}

/// A level successfully driven onto a digital output line.
#[derive(Clone, Copy, Debug, PartialEq, Eq, Structural)]
pub enum PinLevel {
    Low,
    High,
}

/// The chip-select output line of a synchronous bus.  Driving it low marks
/// the device as the active target; driving it high releases it.
pub trait SelectPin {
    type Error;

    /// The levels the line has successfully been driven to, oldest first.
    /// Implementations the verifier reads override this; a wire driver
    /// outside its view leaves the default, which stands for no recorded
    /// history.
    open spec fn events(&self) -> Seq<PinLevel> {
        Seq::empty()
    }

    fn set_low(&mut self) -> (r: Result<(), Self::Error>)
        ensures
            r is Ok ==> final(self).events() == old(self).events().push(PinLevel::Low),
            r is Err ==> final(self).events() == old(self).events(),
    ;

    fn set_high(&mut self) -> (r: Result<(), Self::Error>)
        ensures
            r is Ok ==> final(self).events() == old(self).events().push(PinLevel::High),
            r is Err ==> final(self).events() == old(self).events(),
    ;
}

} // verus!
