use vstd::prelude::*;

use crate::transport::{I2cOp, I2cTransport, PinLevel, SelectPin, SpiFault, SpiTransport};

verus! {

broadcast use Seq::lemma_push_map_commute;

// ---------------------------------------------------------------------------
// Scripted transports
//
// Verified stand-ins for the wire drivers: each replays scripted responses,
// records every transaction it completes, and fails once the script runs
// out.  They give the transport traits implementations that are held to the
// traits' contracts, and let the adapters be driven without hardware.
// ---------------------------------------------------------------------------

/// The error of a scripted transport whose script ran out.
#[derive(Clone, Copy, Debug, PartialEq, Eq, Structural)]
pub struct ScriptExhausted;

/// One transaction recorded by the scripted two-wire transport.
#[derive(Debug, PartialEq, Eq)]
pub enum I2cRecord {
    Write { addr: u8, data: Vec<u8> },
    WriteRead { addr: u8, sent: Vec<u8>, recv: Vec<u8> },
}

impl I2cRecord {
    /// The transaction this record stands for.
    pub open spec fn spec_op(self) -> I2cOp {
        match self {
            I2cRecord::Write { addr, data } => I2cOp::Write { addr, data: data@ },
            I2cRecord::WriteRead { addr, sent, recv } => I2cOp::WriteRead {
                addr,
                sent: sent@,
                recv: recv@,
            },
        }
    }
}

/// A scripted two-wire transport: every write succeeds, every combined
/// write-then-read answers with the next scripted reply, provided its length
/// matches the read buffer.
pub struct ScriptedI2c {
    record: Vec<I2cRecord>,
    replies: Vec<Vec<u8>>,
}

impl ScriptedI2c {
    /// The replies not yet consumed, oldest first.
    pub closed spec fn spec_replies(&self) -> Seq<Seq<u8>> {
        self.replies@.map_values(|v: Vec<u8>| v@)
    }

    /// Build a transport that will answer its reads with `replies`, oldest
    /// first.
    pub fn new(replies: Vec<Vec<u8>>) -> (r: ScriptedI2c)
        ensures
            r.ops() == Seq::<I2cOp>::empty(),
            r.spec_replies() == replies@.map_values(|v: Vec<u8>| v@),
    {
        let r = ScriptedI2c { record: Vec::new(), replies };
        proof {
            assert(r.ops() =~= Seq::<I2cOp>::empty());
        }
        r
    }

    /// The completed transactions, for inspection after a run.
    pub fn record(&self) -> &Vec<I2cRecord> {
        &self.record
    }
}

impl I2cTransport for ScriptedI2c {
    type Error = ScriptExhausted;

    closed spec fn ops(&self) -> Seq<I2cOp> {
        self.record@.map_values(|r: I2cRecord| r.spec_op())
    }

    /// Every write succeeds; the reply script is untouched.
    fn write(&mut self, addr: u8, data: &[u8]) -> (r: Result<(), ScriptExhausted>)
        ensures
            r is Ok,
            final(self).spec_replies() == old(self).spec_replies(),
    {
        let copy = vstd::slice::slice_to_vec(data);
        self.record.push(I2cRecord::Write { addr, data: copy });
        Ok(())
    }

    /// Succeeds exactly when a reply is scripted and its length matches the
    /// buffer; it then consumes that reply and hands it back.  A failure
    /// consumes nothing and leaves the buffer as it was.
    fn write_read(&mut self, addr: u8, sent: &[u8], buffer: &mut Vec<u8>) -> (r: Result<
        (),
        ScriptExhausted,
    >)
        ensures
            r is Ok <==> old(self).spec_replies().len() > 0 && old(self).spec_replies()[0].len()
                == old(buffer)@.len(),
            r is Ok ==> final(buffer)@ == old(self).spec_replies()[0] && final(self).spec_replies()
                == old(self).spec_replies().skip(1),
            r is Err ==> final(buffer)@ == old(buffer)@ && final(self).spec_replies() == old(
                self,
            ).spec_replies(),
    {
        if self.replies.len() == 0 {
            return Err(ScriptExhausted);
        }
        if self.replies[0].len() != buffer.len() {
            return Err(ScriptExhausted);
        }
        let reply = self.replies.remove(0);
        let sent_copy = vstd::slice::slice_to_vec(sent);
        let recv_copy = vstd::slice::slice_to_vec(reply.as_slice());
        *buffer = reply;
        self.record.push(I2cRecord::WriteRead { addr, sent: sent_copy, recv: recv_copy });
        proof {
            assert(self.spec_replies() =~= old(self).spec_replies().skip(1));
        }
        Ok(())
    }
}

/// A scripted full-duplex word transport: each exchange clocks back the next
/// scripted word; an exhausted script fails the send phase.
pub struct ScriptedSpi {
    record: Vec<(u16, u16)>,
    replies: Vec<u16>,
}

impl ScriptedSpi {
    /// The words not yet clocked back, oldest first.
    pub closed spec fn spec_replies(&self) -> Seq<u16> {
        self.replies@
    }

    /// Build a transport that will clock back `replies`, oldest first.
    pub fn new(replies: Vec<u16>) -> (r: ScriptedSpi)
        ensures
            r.exchanged() == Seq::<(u16, u16)>::empty(),
            r.spec_replies() == replies@,
    {
        ScriptedSpi { record: Vec::new(), replies }
    }

    /// The completed exchanges as (sent, received) pairs.
    pub fn record(&self) -> &Vec<(u16, u16)> {
        &self.record
    }
}

impl SpiTransport for ScriptedSpi {
    type Error = ScriptExhausted;

    closed spec fn exchanged(&self) -> Seq<(u16, u16)> {
        self.record@
    }

    /// Succeeds exactly while a reply is scripted; it then consumes the next
    /// reply and clocks it back.
    fn exchange(&mut self, word: u16) -> (r: Result<u16, SpiFault<ScriptExhausted>>)
        ensures
            r is Ok <==> old(self).spec_replies().len() > 0,
            old(self).spec_replies().len() > 0 ==> r == Ok::<u16, SpiFault<ScriptExhausted>>(
                old(self).spec_replies()[0],
            ) && final(self).spec_replies() == old(self).spec_replies().skip(1),
            r is Err ==> final(self).spec_replies() == old(self).spec_replies(),
    {
        if self.replies.len() == 0 {
            return Err(SpiFault::Transfer(ScriptExhausted));
        }
        let resp = self.replies.remove(0);
        self.record.push((word, resp));
        proof {
            assert(self.spec_replies() =~= old(self).spec_replies().skip(1));
        }
        Ok(resp)
    }
}

/// A recording chip-select line that never fails.
pub struct RecordedPin {
    record: Vec<PinLevel>,
}

impl RecordedPin {
    pub fn new() -> (r: RecordedPin)
        ensures
            r.events() == Seq::<PinLevel>::empty(),
    {
        RecordedPin { record: Vec::new() }
    }

    /// The levels the line was driven to, oldest first.
    pub fn record(&self) -> &Vec<PinLevel> {
        &self.record
    }
}

impl SelectPin for RecordedPin {
    type Error = ScriptExhausted;

    closed spec fn events(&self) -> Seq<PinLevel> {
        self.record@
    }

    /// Driving the recorded line never fails.
    fn set_low(&mut self) -> (r: Result<(), ScriptExhausted>)
        ensures
            r is Ok,
    {
        self.record.push(PinLevel::Low);
        Ok(())
    }

    /// Driving the recorded line never fails.
    fn set_high(&mut self) -> (r: Result<(), ScriptExhausted>)
        ensures
            r is Ok,
    {
        self.record.push(PinLevel::High);
        Ok(())
    }
}

} // verus!
