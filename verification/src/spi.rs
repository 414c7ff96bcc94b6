use vstd::prelude::*;

use crate::data_bus::{BusOp, DataBus, MessageFlags, cmd_read_multiple, cmd_read_single,
    cmd_write_multiple, cmd_write_single};
use crate::register::Register;
use crate::transport::{PinLevel, SelectPin, SpiFault, SpiTransport};

verus! {

// ---------------------------------------------------------------------------
// Four-wire bus adapter
//
// The wire unit is a 16-bit word: high byte command or payload, low byte
// payload.  Chip-select is driven low before the first word of a transaction
// and driven high again on every exit path, successful or not.
// ---------------------------------------------------------------------------

/// The 16-bit word with `hi` in its high byte and `lo` in its low byte.
pub open spec fn word_be(hi: u8, lo: u8) -> u16 {
    ((hi as u16) << 8) | (lo as u16)
}

/// The high byte of a word.
pub open spec fn word_hi(w: u16) -> u8 {
    (w >> 8) as u8
}

/// The low byte of a word.
pub open spec fn word_lo(w: u16) -> u8 {
    (w & 0xFF) as u8
}

/// The words sent in a sequence of exchanges.
pub open spec fn sent_words(pairs: Seq<(u16, u16)>) -> Seq<u16> {
    pairs.map_values(|p: (u16, u16)| p.0)
}

/// The words received in a sequence of exchanges.
pub open spec fn recv_words(pairs: Seq<(u16, u16)>) -> Seq<u16> {
    pairs.map_values(|p: (u16, u16)| p.1)
}

/// How many word exchanges a multi-byte read of `n` bytes takes: one for the
/// command word, one per full pair of remaining bytes, and one more for a
/// trailing odd byte.
pub open spec fn spi_read_count(n: nat) -> nat {
    if n == 0 {
        0
    } else {
        (1 + (n - 1) / 2 + (n - 1) % 2) as nat
    }
}

/// The words sent during a multi-byte read: the command word, then zeros.
pub open spec fn spi_read_sent(msg: u16, n: nat) -> Seq<u16> {
    Seq::new(spi_read_count(n), |i: int| if i == 0 { msg } else { 0u16 })
}

/// Byte `j` of a multi-byte read, assembled from the responses `resps`: the
/// first byte is the low byte of the command-word response; the rest come in
/// big-endian pairs from the following words, a trailing odd byte from the
/// high byte of the final word.
pub open spec fn spi_read_byte_at(resps: Seq<u16>, j: int) -> u8 {
    if j == 0 {
        word_lo(resps[0])
    } else if (j - 1) % 2 == 0 {
        word_hi(resps[1 + (j - 1) / 2])
    } else {
        word_lo(resps[1 + (j - 1) / 2])
    }
}

/// The buffer a multi-byte read of `n` bytes yields, given the responses.
pub open spec fn spi_read_fill(resps: Seq<u16>, n: nat) -> Seq<u8> {
    Seq::new(n, |j: int| spi_read_byte_at(resps, j))
}

/// The words sent during a multi-byte write of the (odd-length) payload
/// `data`: the first payload byte rides in the command word, the rest go as
/// big-endian pairs.
pub open spec fn spi_write_words(cmd: u8, data: Seq<u8>) -> Seq<u16>
    recommends
        data.len() >= 1,
{
    Seq::new(
        (1 + (data.len() - 1) / 2) as nat,
        |i: int|
            if i == 0 {
                word_be(cmd, data[0])
            } else {
                word_be(data[2 * i - 1], data[2 * i])
            },
    )
}

/// The chip-select line went through exactly one assert-then-release pair
/// during the call.
pub open spec fn spec_cs_cycled(before: Seq<PinLevel>, after: Seq<PinLevel>) -> bool {
    after == before.push(PinLevel::Low).push(PinLevel::High)
}

/// A chip-select failure left the line either untouched (assert failed, so no
/// transaction began) or asserted low after a failed release.
pub open spec fn spec_cs_aborted(before: Seq<PinLevel>, after: Seq<PinLevel>) -> bool {
    after == before || after == before.push(PinLevel::Low)
}

fn make_word(hi: u8, lo: u8) -> (r: u16)
    ensures
        r == word_be(hi, lo),
{
    ((hi as u16) << 8) | (lo as u16)
}

fn high_byte(w: u16) -> (r: u8)
    ensures
        r == word_hi(w),
{
    proof {
        assert(w >> 8 < 256) by (bit_vector);
    }
    (w >> 8) as u8
}

fn low_byte(w: u16) -> (r: u8)
    ensures
        r == word_lo(w),
{
    proof {
        assert(w & 0xFF < 256) by (bit_vector);
    }
    (w & 0xFF) as u8
}

/// The errors of the four-wire adapter.
#[derive(Debug)]
pub enum SpiError<E, PE> {
    /// The transport failed while reading the word clocked back.
    Read(E),
    /// The transport failed while sending a word out.
    Transfer(E),
    /// A multi-byte write buffer has an even length greater than one, which
    /// the word framing cannot carry.
    InvalidWriteBuffer(&'static str),
    /// The chip-select line could not be driven.
    ChipSelect(PE),
}

/// The adapter error an exchange fault maps to.
pub open spec fn spec_fault_error<E, PE>(f: SpiFault<E>) -> SpiError<E, PE> {
    match f {
        SpiFault::Transfer(e) => SpiError::Transfer(e),
        SpiFault::Read(e) => SpiError::Read(e),
    }
}

fn fault_error<E, PE>(f: SpiFault<E>) -> (r: SpiError<E, PE>)
    ensures
        r == spec_fault_error::<E, PE>(f),
{
    match f {
        SpiFault::Transfer(e) => SpiError::Transfer(e),
        SpiFault::Read(e) => SpiError::Read(e),
    }
}

/// The four-wire bus adapter: owns the word transport and the chip-select
/// line exclusively.
pub struct SPIBus<SPI: SpiTransport, CS: SelectPin> {
    bus: SPI,
    cs: CS,
    log: Ghost<Seq<BusOp>>,
}

impl<SPI: SpiTransport, CS: SelectPin> SPIBus<SPI, CS> {
    /// The underlying word transport.
    pub closed spec fn spec_transport(self) -> SPI {
        self.bus
    }

    /// The chip-select line.
    pub closed spec fn spec_select(self) -> CS {
        self.cs
    }

    pub fn new(bus: SPI, cs: CS) -> (r: SPIBus<SPI, CS>)
        ensures
            r.spec_transport() == bus,
            r.spec_select() == cs,
            r.log() == Seq::<BusOp>::empty(),
            r.spec_raw() == (bus, cs),
    {
        SPIBus { bus, cs, log: Ghost(Seq::empty()) }
    }
}

/// A partial exchange history of the command-then-zeros shape is a prefix of
/// the full word sequence of a multi-byte read.
proof fn lemma_read_sent_prefix(ex: Seq<(u16, u16)>, base: int, msg: u16, n: nat)
    requires
        0 <= base <= ex.len(),
        ex.len() - base <= spi_read_count(n),
        ex.len() > base ==> ex[base].0 == msg,
        forall|k: int| base < k < ex.len() ==> (#[trigger] ex[k]).0 == 0,
    ensures
        sent_words(ex.skip(base)) == spi_read_sent(msg, n).take(ex.len() - base),
{
    assert(sent_words(ex.skip(base)) =~= spi_read_sent(msg, n).take(ex.len() - base));
}

/// A partial exchange history of the command-then-pairs shape is a prefix of
/// the full word sequence of a multi-byte write.
proof fn lemma_write_sent_prefix(ex: Seq<(u16, u16)>, base: int, cmd: u8, data: Seq<u8>)
    requires
        0 <= base <= ex.len(),
        data.len() >= 1,
        ex.len() - base <= 1 + (data.len() - 1) / 2,
        ex.len() > base ==> ex[base].0 == word_be(cmd, data[0]),
        forall|k: int|
            base < k < ex.len() ==> (#[trigger] ex[k]).0 == word_be(
                data[2 * (k - base) - 1],
                data[2 * (k - base)],
            ),
    ensures
        sent_words(ex.skip(base)) == spi_write_words(cmd, data).take(ex.len() - base),
{
    assert(sent_words(ex.skip(base)) =~= spi_write_words(cmd, data).take(ex.len() - base));
}

/// Exchange the words of a multi-byte read: the command word `msg` first,
/// then zeros, assembling the buffer from the responses.  Chip-select is the
/// caller's concern.
fn exchange_read_words<SPI: SpiTransport>(bus: &mut SPI, buffer: &mut Vec<u8>, msg: u16) -> (r:
    Result<(), SpiFault<SPI::Error>>)
    requires
        old(buffer)@.len() >= 1,
    ensures
        final(buffer)@.len() == old(buffer)@.len(),
        final(bus).exchanged().len() >= old(bus).exchanged().len(),
        final(bus).exchanged().take(old(bus).exchanged().len() as int) == old(bus).exchanged(),
        r is Ok ==> ({
            let n = old(buffer)@.len();
            let oldex = old(bus).exchanged();
            let newex = final(bus).exchanged();
            &&& newex.len() == oldex.len() + spi_read_count(n)
            &&& sent_words(newex.skip(oldex.len() as int)) == spi_read_sent(msg, n)
            &&& final(buffer)@ == spi_read_fill(recv_words(newex.skip(oldex.len() as int)), n)
        }),
        r is Err ==> ({
            let n = old(buffer)@.len();
            let oldex = old(bus).exchanged();
            let newex = final(bus).exchanged();
            &&& newex.len() <= oldex.len() + spi_read_count(n)
            &&& sent_words(newex.skip(oldex.len() as int)) == spi_read_sent(msg, n).take(
                newex.len() - oldex.len(),
            )
        }),
{
    let ghost base = old(bus).exchanged().len() as int;
    proof {
        assert(bus.exchanged().take(base) =~= old(bus).exchanged());
    }
    let n = buffer.len();
    let first = match bus.exchange(msg) {
        Ok(w) => w,
        Err(f) => {
            proof {
                assert(sent_words(bus.exchanged().skip(base)) =~= spi_read_sent(
                    msg,
                    n as nat,
                ).take(0));
            }
            return Err(f);
        },
    };
    proof {
        assert(bus.exchanged().take(base) =~= old(bus).exchanged());
    }
    let b0 = low_byte(first);
    buffer[0] = b0;
    let mut idx: usize = 1;
    while idx < n - 1
        invariant
            1 <= idx <= n,
            n >= 1,
            n == buffer@.len(),
            n == old(buffer)@.len(),
            (idx - 1) % 2 == 0,
            base == old(bus).exchanged().len(),
            bus.exchanged().len() == base + 1 + (idx - 1) / 2,
            bus.exchanged().take(base) == old(bus).exchanged(),
            bus.exchanged()[base].0 == msg,
            forall|k: int|
                base < k < bus.exchanged().len() ==> (#[trigger] bus.exchanged()[k]).0 == 0,
            forall|j: int|
                0 <= j < idx ==> buffer@[j] == spi_read_byte_at_raw(bus.exchanged(), base, j),
        decreases n - idx,
    {
        let ghost prev = bus.exchanged();
        let w = match bus.exchange(0) {
            Ok(w) => w,
            Err(f) => {
                proof {
                    lemma_read_sent_prefix(bus.exchanged(), base, msg, n as nat);
                }
                return Err(f);
            },
        };
        proof {
            assert(bus.exchanged().take(base) =~= prev.take(base));
        }
        buffer[idx] = high_byte(w);
        let lo = low_byte(w);
        buffer[idx + 1] = lo;
        idx += 2;
    }
    if idx < n {
        let ghost prev = bus.exchanged();
        let w = match bus.exchange(0) {
            Ok(w) => w,
            Err(f) => {
                proof {
                    lemma_read_sent_prefix(bus.exchanged(), base, msg, n as nat);
                }
                return Err(f);
            },
        };
        proof {
            assert(bus.exchanged().take(base) =~= prev.take(base));
        }
        buffer[idx] = high_byte(w);
        idx += 1;
    }
    proof {
        let n_ = n as nat;
        let oldex = old(bus).exchanged();
        let newex = bus.exchanged();
        let tail = newex.skip(base);
        assert(newex.len() == base + spi_read_count(n_));
        assert(sent_words(tail) =~= spi_read_sent(msg, n_));
        assert forall|j: int| 0 <= j < n implies buffer@[j] == spi_read_fill(
            recv_words(tail),
            n_,
        )[j] by {
            assert(buffer@[j] == spi_read_byte_at_raw(newex, base, j));
        }
        assert(buffer@ =~= spi_read_fill(recv_words(tail), n_));
    }
    Ok(())
}

/// Byte `j` of a multi-byte read, taken directly out of the exchange history
/// starting at `base`.
pub open spec fn spi_read_byte_at_raw(ex: Seq<(u16, u16)>, base: int, j: int) -> u8 {
    if j == 0 {
        word_lo(ex[base].1)
    } else if (j - 1) % 2 == 0 {
        word_hi(ex[base + 1 + (j - 1) / 2].1)
    } else {
        word_lo(ex[base + 1 + (j - 1) / 2].1)
    }
}

/// Exchange the words of a multi-byte write of the odd-length payload `data`:
/// the first payload byte rides in the command word, the rest go as
/// big-endian pairs.  Chip-select is the caller's concern.
fn exchange_write_words<SPI: SpiTransport>(bus: &mut SPI, data: &[u8], cmd: u8) -> (r: Result<
    (),
    SpiFault<SPI::Error>,
>)
    requires
        data@.len() % 2 == 1,
    ensures
        final(bus).exchanged().len() >= old(bus).exchanged().len(),
        final(bus).exchanged().take(old(bus).exchanged().len() as int) == old(bus).exchanged(),
        r is Ok ==> ({
            let oldex = old(bus).exchanged();
            let newex = final(bus).exchanged();
            &&& newex.len() == oldex.len() + 1 + (data@.len() - 1) / 2
            &&& sent_words(newex.skip(oldex.len() as int)) == spi_write_words(cmd, data@)
        }),
        r is Err ==> ({
            let oldex = old(bus).exchanged();
            let newex = final(bus).exchanged();
            &&& newex.len() <= oldex.len() + 1 + (data@.len() - 1) / 2
            &&& sent_words(newex.skip(oldex.len() as int)) == spi_write_words(cmd, data@).take(
                newex.len() - oldex.len(),
            )
        }),
{
    let ghost base = old(bus).exchanged().len() as int;
    proof {
        assert(bus.exchanged().take(base) =~= old(bus).exchanged());
    }
    let n = data.len();
    let first = make_word(cmd, data[0]);
    match bus.exchange(first) {
        Ok(_) => {},
        Err(f) => {
            proof {
                assert(sent_words(bus.exchanged().skip(base)) =~= spi_write_words(
                    cmd,
                    data@,
                ).take(0));
            }
            return Err(f);
        },
    }
    proof {
        assert(bus.exchanged().take(base) =~= old(bus).exchanged());
    }
    let mut idx: usize = 1;
    while idx < n - 1
        invariant
            1 <= idx <= n,
            n >= 1,
            n == data@.len(),
            (idx - 1) % 2 == 0,
            base == old(bus).exchanged().len(),
            bus.exchanged().len() == base + 1 + (idx - 1) / 2,
            bus.exchanged().take(base) == old(bus).exchanged(),
            bus.exchanged()[base].0 == word_be(cmd, data@[0]),
            forall|k: int|
                base < k < bus.exchanged().len() ==> (#[trigger] bus.exchanged()[k]).0 == word_be(
                    data@[2 * (k - base) - 1],
                    data@[2 * (k - base)],
                ),
        decreases n - idx,
    {
        let ghost prev = bus.exchanged();
        let w = make_word(data[idx], data[idx + 1]);
        match bus.exchange(w) {
            Ok(_) => {},
            Err(f) => {
                proof {
                    lemma_write_sent_prefix(bus.exchanged(), base, cmd, data@);
                }
                return Err(f);
            },
        }
        proof {
            assert(bus.exchanged().take(base) =~= prev.take(base));
        }
        idx += 2;
    }
    proof {
        let tail = bus.exchanged().skip(base);
        assert(sent_words(tail) =~= spi_write_words(cmd, data@));
    }
    Ok(())
}

impl<SPI: SpiTransport, CS: SelectPin> DataBus for SPIBus<SPI, CS> {
    type Error = SpiError<SPI::Error, CS::Error>;

    type RawBus = (SPI, CS);

    closed spec fn log(&self) -> Seq<BusOp> {
        self.log@
    }

    closed spec fn spec_raw(self) -> (SPI, CS) {
        (self.bus, self.cs)
    }

    /// The command word yields the first byte in its response's low byte;
    /// the remaining bytes arrive as big-endian pairs, a trailing odd byte in
    /// the high byte of one final word.  Chip-select is released on every
    /// exit path.
    fn read_all<R: Register>(&mut self, buffer: &mut Vec<u8>) -> (r: Result<(), Self::Error>)
        ensures
            old(buffer)@.len() == 0 ==> r is Ok && final(self).spec_transport().exchanged()
                == old(self).spec_transport().exchanged() && final(self).spec_select().events()
                == old(self).spec_select().events() && final(buffer)@ == old(buffer)@,
            r is Ok && old(buffer)@.len() > 0 ==> ({
                let n = old(buffer)@.len();
                let oldex = old(self).spec_transport().exchanged();
                let newex = final(self).spec_transport().exchanged();
                &&& newex.len() == oldex.len() + spi_read_count(n)
                &&& newex.take(oldex.len() as int) == oldex
                &&& sent_words(newex.skip(oldex.len() as int)) == spi_read_sent(
                    word_be(cmd_read_multiple(R::spec_address()), 0),
                    n,
                )
                &&& final(buffer)@ == spi_read_fill(recv_words(newex.skip(oldex.len() as int)), n)
                &&& spec_cs_cycled(
                    old(self).spec_select().events(),
                    final(self).spec_select().events(),
                )
            }),
            r matches Err(e) ==> (e is Transfer || e is Read || e is ChipSelect),
            r matches Err(e) && (e is Transfer || e is Read) ==> spec_cs_cycled(
                old(self).spec_select().events(),
                final(self).spec_select().events(),
            ) && ({
                let n = old(buffer)@.len();
                let oldex = old(self).spec_transport().exchanged();
                let newex = final(self).spec_transport().exchanged();
                &&& newex.len() <= oldex.len() + spi_read_count(n)
                &&& newex.take(oldex.len() as int) == oldex
                &&& sent_words(newex.skip(oldex.len() as int)) == spi_read_sent(
                    word_be(cmd_read_multiple(R::spec_address()), 0),
                    n,
                ).take(newex.len() - oldex.len())
            }),
            r matches Err(e) && e is ChipSelect ==> spec_cs_aborted(
                old(self).spec_select().events(),
                final(self).spec_select().events(),
            ),
    {
        let n = buffer.len();
        if n == 0 {
            self.log = Ghost(
                self.log@.push(BusOp::ReadMany { addr: R::spec_address(), data: buffer@ }),
            );
            return Ok(());
        }
        let cmd = MessageFlags::read().union(MessageFlags::multiple()).register::<R>();
        let msg = make_word(cmd, 0);
        match self.cs.set_low() {
            Ok(()) => {},
            Err(e) => {
                return Err(SpiError::ChipSelect(e));
            },
        }
        let result = exchange_read_words(&mut self.bus, buffer, msg);
        match self.cs.set_high() {
            Ok(()) => {},
            Err(e) => {
                return Err(SpiError::ChipSelect(e));
            },
        }
        match result {
            Ok(()) => {
                self.log = Ghost(
                    self.log@.push(BusOp::ReadMany { addr: R::spec_address(), data: buffer@ }),
                );
                Ok(())
            },
            Err(f) => Err(fault_error(f)),
        }
    }

    /// A buffer of even length greater than one cannot keep byte parity in
    /// the word framing and is rejected before any transport activity; the
    /// first payload byte of an accepted buffer rides in the command word.
    /// Chip-select is released on every exit path.
    fn write_all<R: Register>(&mut self, buffer: &[u8]) -> (r: Result<(), Self::Error>)
        ensures
            (buffer@.len() > 1 && buffer@.len() % 2 == 0) <==> r matches Err(
                SpiError::InvalidWriteBuffer(_),
            ),
            r matches Err(SpiError::InvalidWriteBuffer(_)) ==> *final(self) == *old(self),
            buffer@.len() == 0 ==> r is Ok && final(self).spec_transport().exchanged() == old(
                self,
            ).spec_transport().exchanged() && final(self).spec_select().events() == old(
                self,
            ).spec_select().events(),
            r is Ok && buffer@.len() > 0 ==> ({
                let oldex = old(self).spec_transport().exchanged();
                let newex = final(self).spec_transport().exchanged();
                &&& newex.len() == oldex.len() + 1 + (buffer@.len() - 1) / 2
                &&& newex.take(oldex.len() as int) == oldex
                &&& sent_words(newex.skip(oldex.len() as int)) == spi_write_words(
                    cmd_write_multiple(R::spec_address()),
                    buffer@,
                )
                &&& spec_cs_cycled(
                    old(self).spec_select().events(),
                    final(self).spec_select().events(),
                )
            }),
            r matches Err(e) && (e is Transfer || e is Read) ==> spec_cs_cycled(
                old(self).spec_select().events(),
                final(self).spec_select().events(),
            ) && ({
                let oldex = old(self).spec_transport().exchanged();
                let newex = final(self).spec_transport().exchanged();
                &&& newex.len() <= oldex.len() + 1 + (buffer@.len() - 1) / 2
                &&& newex.take(oldex.len() as int) == oldex
                &&& sent_words(newex.skip(oldex.len() as int)) == spi_write_words(
                    cmd_write_multiple(R::spec_address()),
                    buffer@,
                ).take(newex.len() - oldex.len())
            }),
            r matches Err(e) && e is ChipSelect ==> spec_cs_aborted(
                old(self).spec_select().events(),
                final(self).spec_select().events(),
            ),
    {
        let n = buffer.len();
        if n > 1 && n % 2 == 0 {
            return Err(SpiError::InvalidWriteBuffer("Buffer length must be 0, 1 or odd."));
        }
        if n == 0 {
            self.log = Ghost(
                self.log@.push(BusOp::WriteMany { addr: R::spec_address(), data: buffer@ }),
            );
            return Ok(());
        }
        let cmd = MessageFlags::write().union(MessageFlags::multiple()).register::<R>();
        match self.cs.set_low() {
            Ok(()) => {},
            Err(e) => {
                return Err(SpiError::ChipSelect(e));
            },
        }
        let result = exchange_write_words(&mut self.bus, buffer, cmd);
        match self.cs.set_high() {
            Ok(()) => {},
            Err(e) => {
                return Err(SpiError::ChipSelect(e));
            },
        }
        match result {
            Ok(()) => {
                self.log = Ghost(
                    self.log@.push(BusOp::WriteMany { addr: R::spec_address(), data: buffer@ }),
                );
                Ok(())
            },
            Err(f) => Err(fault_error(f)),
        }
    }

    /// One word out, one word back: the byte read is the low byte of the
    /// response to the command word.  Chip-select is released on every exit
    /// path.
    fn read<R: Register>(&mut self) -> (r: Result<u8, Self::Error>)
        ensures
            r matches Ok(data) ==> (exists|resp: u16|
                final(self).spec_transport().exchanged() == old(
                    self,
                ).spec_transport().exchanged().push(
                    (word_be(cmd_read_single(R::spec_address()), 0), resp),
                ) && data == word_lo(resp)),
            r is Ok ==> spec_cs_cycled(
                old(self).spec_select().events(),
                final(self).spec_select().events(),
            ),
            r matches Err(e) ==> (e is Transfer || e is Read || e is ChipSelect),
            r matches Err(e) && (e is Transfer || e is Read) ==> spec_cs_cycled(
                old(self).spec_select().events(),
                final(self).spec_select().events(),
            ) && final(self).spec_transport().exchanged() == old(self).spec_transport().exchanged(),
            r matches Err(e) && e is ChipSelect ==> spec_cs_aborted(
                old(self).spec_select().events(),
                final(self).spec_select().events(),
            ),
    {
        let cmd = MessageFlags::read().union(MessageFlags::single()).register::<R>();
        let msg = make_word(cmd, 0);
        match self.cs.set_low() {
            Ok(()) => {},
            Err(e) => {
                return Err(SpiError::ChipSelect(e));
            },
        }
        let result = self.bus.exchange(msg);
        match self.cs.set_high() {
            Ok(()) => {},
            Err(e) => {
                return Err(SpiError::ChipSelect(e));
            },
        }
        match result {
            Ok(w) => {
                let data = low_byte(w);
                self.log = Ghost(
                    self.log@.push(BusOp::ReadOne { addr: R::spec_address(), data }),
                );
                Ok(data)
            },
            Err(f) => Err(fault_error(f)),
        }
    }

    /// One word out: command in the high byte, payload in the low byte.
    /// Chip-select is released on every exit path.
    fn write<R: Register>(&mut self, data: u8) -> (r: Result<(), Self::Error>)
        ensures
            r is Ok ==> (exists|resp: u16|
                final(self).spec_transport().exchanged() == old(
                    self,
                ).spec_transport().exchanged().push(
                    (word_be(cmd_write_single(R::spec_address()), data), resp),
                )),
            r is Ok ==> spec_cs_cycled(
                old(self).spec_select().events(),
                final(self).spec_select().events(),
            ),
            r matches Err(e) ==> (e is Transfer || e is Read || e is ChipSelect),
            r matches Err(e) && (e is Transfer || e is Read) ==> spec_cs_cycled(
                old(self).spec_select().events(),
                final(self).spec_select().events(),
            ) && final(self).spec_transport().exchanged() == old(self).spec_transport().exchanged(),
            r matches Err(e) && e is ChipSelect ==> spec_cs_aborted(
                old(self).spec_select().events(),
                final(self).spec_select().events(),
            ),
    {
        let cmd = MessageFlags::write().union(MessageFlags::single()).register::<R>();
        let msg = make_word(cmd, data);
        match self.cs.set_low() {
            Ok(()) => {},
            Err(e) => {
                return Err(SpiError::ChipSelect(e));
            },
        }
        let result = self.bus.exchange(msg);
        match self.cs.set_high() {
            Ok(()) => {},
            Err(e) => {
                return Err(SpiError::ChipSelect(e));
            },
        }
        match result {
            Ok(resp) => {
                proof {
                    assert(self.bus.exchanged() == old(self).spec_transport().exchanged().push(
                        (word_be(cmd_write_single(R::spec_address()), data), resp),
                    ));
                }
                self.log = Ghost(
                    self.log@.push(BusOp::WriteOne { addr: R::spec_address(), data }),
                );
                Ok(())
            },
            Err(f) => Err(fault_error(f)),
        }
    }

    /// Relinquish the word transport and the chip-select line.
    fn destroy(self) -> (r: (SPI, CS))
        ensures
            r.0 == self.spec_transport(),
            r.1 == self.spec_select(),
    {
        (self.bus, self.cs)
    }
}

} // verus!
