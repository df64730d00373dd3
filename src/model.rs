//! A model of the chip: its memory array and its write-enable latch, and how
//! the transactions that the driver issues act on them.
use vstd::prelude::*;

use crate::driver::{read_exchange, read_operations, transferred, write_latch_bracket, write_operations};
use crate::instruction;
use crate::transport::{single_write, Exchange, OperationView};

verus! {

/// The state of the chip that transactions read and change.
pub struct Chip {
    /// The memory array, 256 bytes.
    pub memory: Seq<u8>,
    /// The write-enable latch.
    pub write_enabled: bool,
}

/// Memory after a page write of `data` (at most a page) at `address`: the
/// address counter wraps within the page that `address` lies in.
pub open spec fn page_write(memory: Seq<u8>, address: u8, data: Seq<u8>) -> Seq<u8> {
    let start = address as int - address as int % 16;
    Seq::new(
        memory.len(),
        |x: int|
            if start <= x < start + 16 && (x - address as int) % 16 < data.len() {
                data[(x - address as int) % 16]
            } else {
                memory[x]
            },
    )
}

/// The bytes a read of `len` bytes at `address` brings back: the address
/// counter rolls over from 0xFF to 0x00.
pub open spec fn memory_read(memory: Seq<u8>, address: u8, len: nat) -> Seq<u8> {
    Seq::new(len, |i: int| memory[(address as int + i) % 256])
}

/// One transaction on the chip: the chip after it, and what the steps hold
/// afterwards. WREN and WRDI set and reset the latch; WRITE with the latch
/// set stores a payload of at most a page and resets the latch; READ fills
/// the transfer that follows it. The model leaves anything else unchanged.
pub open spec fn chip_step(chip: Chip, sent: Seq<OperationView>) -> (Chip, Seq<OperationView>) {
    if sent == single_write(seq![instruction::WREN]) {
        (Chip { write_enabled: true, ..chip }, sent)
    } else if sent == single_write(seq![instruction::WRDI]) {
        (Chip { write_enabled: false, ..chip }, sent)
    } else if sent.len() == 2 {
        match (sent[0], sent[1]) {
            (OperationView::Write(cmd), OperationView::Write(data)) => {
                if cmd.len() == 2 && cmd[0] == instruction::WRITE && chip.write_enabled
                    && data.len() <= 16 {
                    (
                        Chip { memory: page_write(chip.memory, cmd[1], data), write_enabled: false },
                        sent,
                    )
                } else {
                    (chip, sent)
                }
            },
            (OperationView::Write(cmd), OperationView::TransferInPlace(tx)) => {
                if cmd.len() == 2 && cmd[0] == instruction::READ {
                    (
                        chip,
                        seq![
                            sent[0],
                            OperationView::TransferInPlace(memory_read(chip.memory, cmd[1], tx.len())),
                        ],
                    )
                } else {
                    (chip, sent)
                }
            },
            _ => (chip, sent),
        }
    } else {
        (chip, sent)
    }
}

/// The chip after the transactions of `steps`, in order.
pub open spec fn chip_after<E>(chip: Chip, steps: Seq<Exchange<E>>) -> Chip
    decreases steps.len(),
{
    if steps.len() == 0 {
        chip
    } else {
        chip_step(chip_after(chip, steps.drop_last()), steps.last().sent).0
    }
}

/// Each transaction of `steps` succeeded and left its steps as the chip,
/// starting from `chip`, would have.
pub open spec fn chip_answers<E>(chip: Chip, steps: Seq<Exchange<E>>) -> bool {
    forall|k: int|
        0 <= k < steps.len() ==> {
            &&& (#[trigger] steps[k]).result is Ok
            &&& steps[k].received == chip_step(chip_after(chip, steps.subrange(0, k)), steps[k].sent).1
        }
}

/// Writing a page and then reading the same bytes back returns what was
/// written, when the transport answers as the chip does: for the
/// transactions of a successful `write_page` of `data` at an aligned
/// `address`, followed by the transaction of a `read` at `address` of a
/// buffer as long as `data`, the buffer ends up holding `data`.
pub proof fn lemma_page_round_trip<E>(
    chip: Chip,
    address: u8,
    data: Seq<u8>,
    steps: Seq<Exchange<E>>,
    read: Exchange<E>,
    tx: Seq<u8>,
    rx: Seq<u8>,
)
    requires
        chip.memory.len() == 256,
        address % 16 == 0,
        1 <= data.len() <= 16,
        tx.len() == data.len(),
        write_latch_bracket(steps, write_operations(address, data), Ok(())),
        read_exchange(read, address, tx, rx, Ok(())),
        chip_answers(chip, steps.push(read)),
    ensures
        rx == data,
{
    let all = steps.push(read);
    assert(all[0] == steps[0]);
    assert(all[1] == steps[1]);
    assert(steps.len() == 2);
    assert(all.subrange(0, 0) =~= Seq::<Exchange<E>>::empty());
    assert(all.subrange(0, 1) =~= seq![steps[0]]);
    assert(all.subrange(0, 2) =~= steps);
    assert(seq![steps[0]].drop_last() =~= Seq::<Exchange<E>>::empty());
    assert(steps.drop_last() =~= seq![steps[0]]);
    let c1 = chip_after(chip, seq![steps[0]]);
    assert(c1.write_enabled && c1.memory == chip.memory);
    let c2 = chip_after(chip, steps);
    assert(c2.memory == page_write(chip.memory, address, data));
    assert(all[2] == read);
    assert(read.received == chip_step(c2, read.sent).1);
    assert(rx =~= data);
}

} // verus!
