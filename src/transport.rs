//! The SPI capability the driver needs: framed transactions made of write and
//! in-place transfer steps.
use vstd::prelude::*;

verus! {

/// One step of a framed SPI transaction. Each step owns its buffer.
#[derive(Debug, PartialEq, Eq)]
pub enum Operation {
    /// Shift the bytes out and discard what comes back.
    Write(Vec<u8>),
    /// Shift the bytes out and overwrite each one with the byte received in its place.
    TransferInPlace(Vec<u8>),
}

/// An [`Operation`] as mathematical values.
pub enum OperationView {
    /// The bytes shifted out.
    Write(Seq<u8>),
    /// The bytes the buffer holds: before the transaction, those shifted
    /// out; after it, those received.
    TransferInPlace(Seq<u8>),
}

impl View for Operation {
    type V = OperationView;

    open spec fn view(&self) -> OperationView {
        match self {
            Operation::Write(bytes) => OperationView::Write(bytes@),
            Operation::TransferInPlace(bytes) => OperationView::TransferInPlace(bytes@),
        }
    }
}

impl OperationView {
    /// `after` is a possible state of this step once a transport has run it:
    /// a write keeps its bytes, a transfer keeps its length.
    pub open spec fn completes_as(self, after: OperationView) -> bool {
        match (self, after) {
            (OperationView::Write(a), OperationView::Write(b)) => a == b,
            (OperationView::TransferInPlace(a), OperationView::TransferInPlace(b)) => a.len()
                == b.len(),
            _ => false,
        }
    }
}

/// The views of a sequence of operations.
pub open spec fn views(operations: Seq<Operation>) -> Seq<OperationView> {
    operations.map_values(|o: Operation| o@)
}

/// `after` is a possible state of the steps `before` once a transport has run them.
pub open spec fn completes_as(before: Seq<OperationView>, after: Seq<OperationView>) -> bool {
    &&& after.len() == before.len()
    &&& forall|i: int| 0 <= i < before.len() ==> #[trigger] before[i].completes_as(after[i])
}

/// A byte-oriented SPI device that frames each transaction with its own
/// chip-select assertion.
///
/// Implementations assert chip-select, run the operations in order, and
/// deassert chip-select again, also when an operation fails. Operations are
/// edited in place only where a transfer receives bytes.
pub trait SpiTransport {
    /// What a failed transaction reports.
    type Error;

    /// Runs `operations` in order within one chip-select assertion.
    fn transaction(&mut self, operations: &mut Vec<Operation>) -> (r: Result<(), Self::Error>)
        ensures
            completes_as(views(old(operations)@), views(final(operations)@)),
    ;
}

/// One transaction issued on the bus: what was sent, what the steps held
/// afterwards, and how it ended.
pub struct Exchange<E> {
    /// The steps as handed to the transport.
    pub sent: Seq<OperationView>,
    /// The steps as the transport left them.
    pub received: Seq<OperationView>,
    /// What the transport returned.
    pub result: Result<(), E>,
}

/// A transaction of a single write step.
pub open spec fn single_write(bytes: Seq<u8>) -> Seq<OperationView> {
    seq![OperationView::Write(bytes)]
}

} // verus!
