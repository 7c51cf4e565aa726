//! The leaf entity of the model: a single incremental book mutation.

use vstd::prelude::*;

verus! {

/// Identifier of a traded instrument, reduced to the integer key the
/// sequencing and book state are scoped by.
#[derive(Clone, Copy, Debug, PartialEq, Eq, Structural, Hash)]
pub struct InstrumentId {
    pub value: u64,
}

impl InstrumentId {
    pub fn new(value: u64) -> (id: InstrumentId)
        ensures
            id.value == value,
    {
        InstrumentId { value }
    }
}

/// What a delta does to the book: mutate one price level, or clear the whole
/// book for the instrument.
#[derive(Clone, Copy, Debug, PartialEq, Eq, Structural, Hash)]
pub enum BookAction {
    /// Insert a level (or reinstate one) at `price` with `size`.
    Add,
    /// Replace the size of the level at `price` with `size`.
    Update,
    /// Remove the level at `price`.
    Delete,
    /// Discard every level of the instrument's book.  `price`, `size` and
    /// `side` carry no meaning for this action.
    Clear,
}

/// The side of the book a level mutation addresses.
#[derive(Clone, Copy, Debug, PartialEq, Eq, Structural, Hash)]
pub enum Side {
    Buy,
    Sell,
}

/// Batch-level flag bit: the batch completes a logical update burst, so its
/// effects may be made visible to readers.
pub const FLAG_LAST: u8 = 128;

/// Batch-level flag bit: the batch belongs to a snapshot that replaces book
/// state rather than amending it.
pub const FLAG_SNAPSHOT: u8 = 32;

/// Batch-level flag bit: the batch is an explicit clear.  Only a batch
/// carrying this bit may have an empty delta sequence.
pub const FLAG_CLEAR: u8 = 1;

/// A single incremental book mutation.  Immutable and trivially copyable:
/// it owns no heap data and is cheap to duplicate across consumers.
#[derive(Clone, Copy, Debug, PartialEq, Eq, Structural, Hash)]
pub struct Delta {
    /// Instrument whose book this mutation addresses.
    pub instrument_id: InstrumentId,
    /// What the mutation does to the book.
    pub action: BookAction,
    /// Book side of the level being mutated; carries no meaning for
    /// [`BookAction::Clear`].
    pub side: Side,
    /// Price of the level being mutated; carries no meaning for
    /// [`BookAction::Clear`].
    pub price: u64,
    /// New size of the level; carries no meaning for [`BookAction::Clear`]
    /// and [`BookAction::Delete`].
    pub size: u64,
    /// Present for order-level books, absent for aggregated level books.
    pub order_id: Option<u64>,
    /// Per-delta flag bits.
    pub flags: u8,
    /// Per-delta sequence number.
    pub sequence: u64,
    /// Exchange-assigned event time (nanoseconds).
    pub ts_event: u64,
    /// Local time the delta was observed (nanoseconds).
    pub ts_init: u64,
}

impl Delta {
    /// Builds a delta carrying exactly the given field values.
    pub fn new(
        instrument_id: InstrumentId,
        action: BookAction,
        side: Side,
        price: u64,
        size: u64,
        order_id: Option<u64>,
        flags: u8,
        sequence: u64,
        ts_event: u64,
        ts_init: u64,
    ) -> (d: Delta)
        ensures
            d == (Delta {
                instrument_id,
                action,
                side,
                price,
                size,
                order_id,
                flags,
                sequence,
                ts_event,
                ts_init,
            }),
    {
        Delta { instrument_id, action, side, price, size, order_id, flags, sequence, ts_event, ts_init }
    }

    /// Builds the clear marker for an instrument: a delta whose action
    /// discards all book state.  The level fields carry no meaning and are
    /// zeroed.
    pub fn clear(instrument_id: InstrumentId, sequence: u64, ts_event: u64, ts_init: u64) -> (d:
        Delta)
        ensures
            d.instrument_id == instrument_id,
            d.action == BookAction::Clear,
            d.side == Side::Buy,
            d.price == 0 && d.size == 0 && d.order_id is None && d.flags == 0,
            d.sequence == sequence,
            d.ts_event == ts_event,
            d.ts_init == ts_init,
    {
        Delta {
            instrument_id,
            action: BookAction::Clear,
            side: Side::Buy,
            price: 0,
            size: 0,
            order_id: None,
            flags: 0,
            sequence,
            ts_event,
            ts_init,
        }
    }
}

/// True when the flag bits mark an explicit clear batch, the one batch form
/// allowed to carry no deltas.
pub open spec fn spec_marks_clear(flags: u8) -> bool {
    flags & FLAG_CLEAR != 0
}

/// True when the flag bits mark a batch that both belongs to a snapshot and
/// completes its burst: the form that replaces book state and recovers a
/// gapped instrument.
pub open spec fn spec_is_completing_snapshot(flags: u8) -> bool {
    flags & FLAG_SNAPSHOT != 0 && flags & FLAG_LAST != 0
}

/// Runtime test for [`spec_marks_clear`].
pub fn marks_clear(flags: u8) -> (b: bool)
    ensures
        b == spec_marks_clear(flags),
{
    flags & FLAG_CLEAR != 0
}

/// Runtime test for [`spec_is_completing_snapshot`].
pub fn is_completing_snapshot(flags: u8) -> (b: bool)
    ensures
        b == spec_is_completing_snapshot(flags),
{
    flags & FLAG_SNAPSHOT != 0 && flags & FLAG_LAST != 0
}

} // verus!
