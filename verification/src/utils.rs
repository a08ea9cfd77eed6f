//! Counts over the records of a benchmark and over the messages of a
//! polled batch.

use crate::metrics::{records_view, IndividualMetrics};
use crate::reduce::{bounded_by, lemma_sum_bound, scalar_column, scalar_total, sum, ScalarField};
use vstd::prelude::*;

verus! {

/// The sizes of one message of a polled batch, in bytes.
#[derive(Clone, Copy, Debug, PartialEq, Eq, Structural)]
pub struct MessageSize {
    /// The size of the whole message: its header, its payload and the
    /// headers that its sender gave it.
    pub total_bytes: u64,
    /// The size of the payload alone.
    pub payload_bytes: u64,
}

/// Names one of the two sizes of a message.
#[derive(Clone, Copy, Debug, PartialEq, Eq, Structural)]
pub enum SizeKind {
    Total,
    Payload,
}

/// The size of a message that `kind` names.
pub open spec fn size_of(message: MessageSize, kind: SizeKind) -> nat {
    match kind {
        SizeKind::Total => message.total_bytes as nat,
        SizeKind::Payload => message.payload_bytes as nat,
    }
}

/// The sizes of the messages of a batch, message by message.
pub open spec fn size_column(messages: Seq<MessageSize>, kind: SizeKind) -> Seq<nat> {
    Seq::new(messages.len(), |i: int| size_of(messages[i], kind))
}

/// Adds one size up over the messages of a batch.
fn size_total(messages: &[MessageSize], kind: SizeKind) -> (total: u128)
    ensures
        total == sum(size_column(messages@, kind)),
{
    let ghost column = size_column(messages@, kind);
    let mut total: u128 = 0;
    let mut i: usize = 0;
    while i < messages.len()
        invariant
            i <= messages.len(),
            column == size_column(messages@, kind),
            total == sum(column.take(i as int)),
        decreases messages.len() - i,
    {
        let size: u64 = match kind {
            SizeKind::Total => messages[i].total_bytes,
            SizeKind::Payload => messages[i].payload_bytes,
        };
        proof {
            let next = column.take(i as int + 1);
            assert(next.drop_last() =~= column.take(i as int));
            assert(next.last() == size);
            assert(bounded_by(next, u64::MAX as nat));
            lemma_sum_bound(next, u64::MAX as nat);
            assert(next.len() * u64::MAX <= u64::MAX * u64::MAX) by (nonlinear_arith)
                requires
                    next.len() <= u64::MAX,
            ;
        }
        total = total + size as u128;
        i = i + 1;
    }
    proof {
        assert(column.take(i as int) =~= column);
    }
    total
}

/// The size of a polled batch in bytes: the sum of the sizes of its
/// messages, headers included.
pub fn batch_total_size_bytes(polled_messages: &[MessageSize]) -> (total: u128)
    ensures
        total == sum(size_column(polled_messages@, SizeKind::Total)),
{
    size_total(polled_messages, SizeKind::Total)
}

/// The size in bytes of what the users of a polled batch sent: the sum of
/// the sizes of the payloads of its messages.
pub fn batch_user_size_bytes(polled_messages: &[MessageSize]) -> (total: u128)
    ensures
        total == sum(size_column(polled_messages@, SizeKind::Payload)),
{
    size_total(polled_messages, SizeKind::Payload)
}

/// The number of message batches that the actors of the records have
/// processed between them.
pub fn message_batches_from_metrics(individual_metrics: &[IndividualMetrics]) -> (batches: u128)
    ensures
        batches == sum(
            scalar_column(records_view(individual_metrics@), ScalarField::MessageBatches),
        ),
{
    scalar_total(individual_metrics, ScalarField::MessageBatches)
}

} // verus!
