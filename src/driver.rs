//! The EEPROM driver: reads, page writes under the write-enable latch, and the
//! EUI-48 read.
use vstd::prelude::*;

use crate::instruction;
use crate::transport::{
    completes_as, single_write, views, Exchange, Operation, OperationView, SpiTransport,
};
use crate::{EUI48_BYTES, EUI48_MEMORY_ADDRESS, MEMORY_BYTES, PAGE_SIZE};

verus! {

/// The transaction that reads `tx.len()` bytes starting at `address`: the
/// READ command, then a transfer that shifts out `tx` and brings the data back.
pub open spec fn read_operations(address: u8, tx: Seq<u8>) -> Seq<OperationView> {
    seq![
        OperationView::Write(seq![instruction::READ, address]),
        OperationView::TransferInPlace(tx),
    ]
}

/// The transaction that writes `data` starting at `address`: the WRITE
/// command, then the payload, under one chip-select assertion.
pub open spec fn write_operations(address: u8, data: Seq<u8>) -> Seq<OperationView> {
    seq![OperationView::Write(seq![instruction::WRITE, address]), OperationView::Write(data)]
}

/// The bytes that the last step of a transaction holds when it is a transfer.
pub open spec fn transferred(steps: Seq<OperationView>) -> Seq<u8> {
    match steps.last() {
        OperationView::TransferInPlace(bytes) => bytes,
        OperationView::Write(_) => Seq::empty(),
    }
}

/// `after` is `before` followed by `n` more transactions.
pub open spec fn extends_by<E>(before: Seq<Exchange<E>>, after: Seq<Exchange<E>>, n: nat) -> bool {
    &&& after.len() == before.len() + n
    &&& after.subrange(0, before.len() as int) == before
}

/// The transactions added to a history after `before`.
pub open spec fn added<E>(before: Seq<Exchange<E>>, after: Seq<Exchange<E>>) -> Seq<Exchange<E>> {
    after.subrange(before.len() as int, after.len() as int)
}

/// `e` is the read of `tx.len()` bytes at `address`, which left `rx` in the
/// caller's buffer and ended with `r`.
pub open spec fn read_exchange<E>(
    e: Exchange<E>,
    address: u8,
    tx: Seq<u8>,
    rx: Seq<u8>,
    r: Result<(), E>,
) -> bool {
    &&& e.sent == read_operations(address, tx)
    &&& rx == transferred(e.received)
    &&& rx.len() == tx.len()
    &&& r == e.result
}

/// `steps` is what a write of `operations` under the write-enable latch puts on
/// the bus, and `r` is what it returns:
/// a WREN transaction; if that succeeded, `operations`; if those failed, a WRDI
/// transaction. A failed WREN ends the write with its error; a failed WRDI
/// replaces the write's error with its own.
pub open spec fn write_latch_bracket<E>(
    steps: Seq<Exchange<E>>,
    operations: Seq<OperationView>,
    r: Result<(), E>,
) -> bool {
    &&& steps.len() >= 1
    &&& steps[0].sent == single_write(seq![instruction::WREN])
    &&& if steps[0].result is Err {
        steps.len() == 1 && r == steps[0].result
    } else {
        &&& steps.len() >= 2
        &&& steps[1].sent == operations
        &&& if steps[1].result is Ok {
            steps.len() == 2 && r == steps[1].result
        } else {
            &&& steps.len() == 3
            &&& steps[2].sent == single_write(seq![instruction::WRDI])
            &&& r == if steps[2].result is Err {
                steps[2].result
            } else {
                steps[1].result
            }
        }
    }
}

/// Microchip 25AA02E48 driver.
pub struct Eeprom25aa02e48<SPI: SpiTransport> {
    spi: SPI,
    history: Ghost<Seq<Exchange<SPI::Error>>>,
}

impl<SPI: SpiTransport> Eeprom25aa02e48<SPI> {
    /// Every transaction this driver has issued, oldest first.
    pub closed spec fn history(&self) -> Seq<Exchange<SPI::Error>> {
        self.history@
    }

    /// The transport the driver holds.
    pub closed spec fn spi(&self) -> SPI {
        self.spi
    }

    /// Creates a new driver from an SPI device. No bus activity.
    pub fn new(spi: SPI) -> (r: Self)
        ensures
            r.spi() == spi,
            r.history() == Seq::<Exchange<SPI::Error>>::empty(),
    {
        Eeprom25aa02e48 { spi, history: Ghost(Seq::empty()) }
    }

    /// Frees the SPI device from the driver. No bus activity.
    pub fn free(self) -> (r: SPI)
        ensures
            r == self.spi(),
    {
        self.spi
    }

    /// Runs one transaction on the transport and records it.
    fn transact(&mut self, operations: &mut Vec<Operation>) -> (r: Result<(), SPI::Error>)
        ensures
            completes_as(views(old(operations)@), views(final(operations)@)),
            final(self).history() == old(self).history().push(
                Exchange { sent: views(old(operations)@), received: views(final(operations)@), result: r },
            ),
    {
        let ghost sent = views(operations@);
        let r = self.spi.transaction(operations);
        proof {
            self.history@ = self.history@.push(
                Exchange { sent, received: views(operations@), result: r },
            );
        }
        r
    }

    /// Reads `buf.len()` bytes starting at `address` into `buf`.
    ///
    /// Past address 0xFF the device's address counter rolls over to 0x00.
    /// An empty buffer is a no-op. The buffer may hold at most 256 bytes.
    pub fn read(&mut self, address: u8, buf: &mut [u8]) -> (r: Result<(), SPI::Error>)
        requires
            old(buf)@.len() <= MEMORY_BYTES,
        ensures
            old(buf)@.len() == 0 ==> {
                &&& r is Ok
                &&& final(self).history() == old(self).history()
                &&& final(buf)@ == old(buf)@
            },
            old(buf)@.len() > 0 ==> {
                &&& extends_by(old(self).history(), final(self).history(), 1)
                &&& read_exchange(final(self).history().last(), address, old(buf)@, final(buf)@, r)
            },
    {
        if buf.len() == 0 {
            return Ok(());
        }
        let tx = vstd::slice::slice_to_vec(buf);
        let mut operations = vec![
            Operation::Write(vec![instruction::READ, address]),
            Operation::TransferInPlace(tx),
        ];
        assert(views(operations@) =~= read_operations(address, old(buf)@));
        let ghost sent = views(operations@);
        let r = self.transact(&mut operations);
        let ghost received = views(operations@);
        assert(sent[1].completes_as(received[1]));
        assert(received[1] == operations@[1]@);
        match &operations[1] {
            Operation::TransferInPlace(rx) => {
                let n = buf.len();
                let mut i: usize = 0;
                while i < n
                    invariant
                        n == buf@.len(),
                        rx@.len() == n,
                        0 <= i <= n,
                        forall|j: int| 0 <= j < i ==> buf@[j] == rx@[j],
                    decreases n - i,
                {
                    buf[i] = rx[i];
                    i = i + 1;
                }
                assert(buf@ =~= rx@);
            },
            Operation::Write(_) => {},
        }
        assert(self.history().subrange(0, old(self).history().len() as int) =~= old(self).history());
        assert(transferred(received) == transferred(self.history().last().received));
        r
    }

    /// Runs `operations` as one transaction after setting the write-enable
    /// latch, and resets the latch if that transaction fails. On success the
    /// device clears the latch itself.
    fn with_write_latch(&mut self, operations: &mut Vec<Operation>) -> (r: Result<(), SPI::Error>)
        ensures
            final(self).history().len() > old(self).history().len(),
            final(self).history().subrange(0, old(self).history().len() as int) == old(self).history(),
            write_latch_bracket(
                added(old(self).history(), final(self).history()),
                views(old(operations)@),
                r,
            ),
    {
        let ghost h0 = self.history();
        let wren = vec![instruction::WREN];
        assert(wren@ =~= seq![instruction::WREN]);
        let mut enable = vec![Operation::Write(wren)];
        assert(views(enable@) =~= single_write(seq![instruction::WREN]));
        let latched = self.transact(&mut enable);
        if latched.is_err() {
            assert(added(h0, self.history()) =~= seq![self.history().last()]);
            return latched;
        }
        let ghost h1 = self.history();
        let result = self.transact(operations);
        if result.is_err() {
            let wrdi = vec![instruction::WRDI];
            assert(wrdi@ =~= seq![instruction::WRDI]);
            let mut disable = vec![Operation::Write(wrdi)];
            assert(views(disable@) =~= single_write(seq![instruction::WRDI]));
            let reset = self.transact(&mut disable);
            assert(added(h0, self.history()) =~= seq![h1.last(), self.history()[h0.len() + 1int], self.history().last()]);
            assert(self.history().subrange(0, h0.len() as int) =~= h0);
            if reset.is_err() {
                return reset;
            }
            return result;
        }
        assert(added(h0, self.history()) =~= seq![h1.last(), self.history().last()]);
        assert(self.history().subrange(0, h0.len() as int) =~= h0);
        result
    }

    /// Writes up to a page of data starting at a page-aligned `address`.
    ///
    /// The write-enable latch is set in a transaction of its own; the WRITE
    /// command and `data` follow in a second one. If that second transaction
    /// fails, the latch is reset before the error is returned. Empty `data` is
    /// a no-op. An unaligned address or more than a page of data is a caller
    /// error and is ruled out by the precondition.
    pub fn write_page(&mut self, address: u8, data: &[u8]) -> (r: Result<(), SPI::Error>)
        requires
            address % PAGE_SIZE == 0,
            data@.len() <= PAGE_SIZE,
        ensures
            data@.len() == 0 ==> r is Ok && final(self).history() == old(self).history(),
            data@.len() > 0 ==> {
                &&& final(self).history().len() > old(self).history().len()
                &&& final(self).history().subrange(0, old(self).history().len() as int)
                    == old(self).history()
                &&& write_latch_bracket(
                    added(old(self).history(), final(self).history()),
                    write_operations(address, data@),
                    r,
                )
            },
    {
        if data.len() == 0 {
            return Ok(());
        }
        let payload = vstd::slice::slice_to_vec(data);
        let mut operations = vec![
            Operation::Write(vec![instruction::WRITE, address]),
            Operation::Write(payload),
        ];
        assert(views(operations@) =~= write_operations(address, data@));
        self.with_write_latch(&mut operations)
    }

    /// Writes one byte at `address`, under the same write-enable latch bracket
    /// as a page write. Any address will do: one byte never crosses a page.
    pub fn write_byte(&mut self, address: u8, value: u8) -> (r: Result<(), SPI::Error>)
        ensures
            final(self).history().len() > old(self).history().len(),
            final(self).history().subrange(0, old(self).history().len() as int)
                == old(self).history(),
            write_latch_bracket(
                added(old(self).history(), final(self).history()),
                write_operations(address, seq![value]),
                r,
            ),
    {
        let payload = vec![value];
        assert(payload@ =~= seq![value]);
        let mut operations = vec![
            Operation::Write(vec![instruction::WRITE, address]),
            Operation::Write(payload),
        ];
        assert(views(operations@) =~= write_operations(address, seq![value]));
        self.with_write_latch(&mut operations)
    }

    /// Reads the EUI-48 MAC address: the same bus activity as reading six
    /// bytes at 0xFA into a zeroed buffer, returning the bytes received.
    pub fn read_eui48(&mut self) -> (r: Result<[u8; EUI48_BYTES], SPI::Error>)
        ensures
            extends_by(old(self).history(), final(self).history(), 1),
            final(self).history().last().sent == read_operations(
                EUI48_MEMORY_ADDRESS,
                Seq::new(EUI48_BYTES as nat, |i: int| 0u8),
            ),
            match r {
                Ok(eui48) => {
                    &&& final(self).history().last().result is Ok
                    &&& eui48@ == transferred(final(self).history().last().received)
                },
                Err(e) => final(self).history().last().result == Err::<(), SPI::Error>(e),
            },
    {
        let mut eui48: [u8; EUI48_BYTES] = [0; EUI48_BYTES];
        assert(eui48@ =~= Seq::new(EUI48_BYTES as nat, |i: int| 0u8));
        match self.read(EUI48_MEMORY_ADDRESS, &mut eui48) {
            Ok(()) => Ok(eui48),
            Err(e) => Err(e),
        }
    }
}

impl<SPI: SpiTransport + Default> Default for Eeprom25aa02e48<SPI> {
    /// A driver on the transport's default value, with no bus activity.
    fn default() -> (r: Self)
        ensures
            r.history() == Seq::<Exchange<SPI::Error>>::empty(),
    {
        Eeprom25aa02e48::new(SPI::default())
    }
}

} // verus!
