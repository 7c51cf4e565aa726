//! A reference book applier.
//!
//! The order-book engine proper is outside this crate; what this module
//! fixes is the contract such an engine must honor when it consumes a
//! batch the sequencer accepted: deltas are applied in array order, and a
//! clear delta discards every level of the instrument before any later
//! delta of the same batch is applied.  [`Book`] is a price-level book
//! (one size per price and side) implementing exactly that contract, and
//! [`lemma_snapshot_replaces_book`] states the replacement guarantee a
//! completing snapshot carries.

use vstd::prelude::*;

use crate::batch::BatchView;
use crate::batch::DeltaBatch;
use crate::delta::BookAction;
use crate::delta::Delta;
use crate::delta::Side;
use crate::delta::spec_is_completing_snapshot;
use std::collections::HashMap;

verus! {

broadcast use vstd::std_specs::hash::group_hash_axioms;

/// The mathematical value of a [`Book`]: one size per price on each side.
pub struct BookModel {
    pub bids: Map<u64, u64>,
    pub asks: Map<u64, u64>,
}

/// The book holding no levels at all.
pub open spec fn spec_empty_book() -> BookModel {
    BookModel { bids: Map::empty(), asks: Map::empty() }
}

/// The meaning of one delta for book state.  `Add` and `Update` both leave
/// the level at the delta's price holding the delta's size, `Delete`
/// removes the level, and `Clear` discards both sides entirely.
pub open spec fn spec_apply_delta(b: BookModel, d: Delta) -> BookModel {
    match d.action {
        BookAction::Clear => spec_empty_book(),
        BookAction::Add | BookAction::Update => match d.side {
            Side::Buy => BookModel { bids: b.bids.insert(d.price, d.size), asks: b.asks },
            Side::Sell => BookModel { bids: b.bids, asks: b.asks.insert(d.price, d.size) },
        },
        BookAction::Delete => match d.side {
            Side::Buy => BookModel { bids: b.bids.remove(d.price), asks: b.asks },
            Side::Sell => BookModel { bids: b.bids, asks: b.asks.remove(d.price) },
        },
    }
}

/// The meaning of applying the deltas of `s` from position `i` on, left to
/// right, to book state `b`.
pub open spec fn spec_apply_deltas_from(b: BookModel, s: Seq<Delta>, i: int) -> BookModel
    decreases s.len() - i,
{
    if i < 0 || i >= s.len() {
        b
    } else {
        spec_apply_deltas_from(spec_apply_delta(b, s[i]), s, i + 1)
    }
}

/// The meaning of applying a whole batch value to book state `b`: its
/// deltas in array order, first to last.
pub open spec fn spec_apply_batch(b: BookModel, v: BatchView) -> BookModel {
    spec_apply_deltas_from(b, v.deltas, 0)
}

/// A price-level book for one instrument, mutated exactly as
/// [`spec_apply_delta`] prescribes.
pub struct Book {
    bids: HashMap<u64, u64>,
    asks: HashMap<u64, u64>,
}

impl View for Book {
    type V = BookModel;

    closed spec fn view(&self) -> BookModel {
        BookModel { bids: self.bids@, asks: self.asks@ }
    }
}

impl Book {
    /// An empty book.
    pub fn new() -> (b: Book)
        ensures
            b@ == spec_empty_book(),
    {
        let b = Book { bids: HashMap::new(), asks: HashMap::new() };
        proof {
            assert(b@ =~= spec_empty_book());
        }
        b
    }

    /// Applies one delta.
    pub fn apply_delta(&mut self, d: &Delta)
        ensures
            final(self)@ == spec_apply_delta(old(self)@, *d),
    {
        match d.action {
            BookAction::Clear => {
                self.bids.clear();
                self.asks.clear();
            },
            BookAction::Add | BookAction::Update => {
                match d.side {
                    Side::Buy => {
                        self.bids.insert(d.price, d.size);
                    },
                    Side::Sell => {
                        self.asks.insert(d.price, d.size);
                    },
                }
            },
            BookAction::Delete => {
                match d.side {
                    Side::Buy => {
                        self.bids.remove(&d.price);
                    },
                    Side::Sell => {
                        self.asks.remove(&d.price);
                    },
                }
            },
        }
    }

    /// Applies every delta of `batch` in array order, first to last.  The
    /// order within a batch is meaningful: a delete followed by an add at
    /// the same price must land in that order, and a clear discards all
    /// levels before any later delta of the batch takes effect.
    pub fn apply_batch(&mut self, batch: &DeltaBatch)
        ensures
            final(self)@ == spec_apply_batch(old(self)@, batch@),
    {
        let n: usize = batch.len();
        let mut i: usize = 0;
        while i < n
            invariant
                n == batch@.deltas.len(),
                i <= n,
                spec_apply_batch(old(self)@, batch@)
                    == spec_apply_deltas_from(self@, batch@.deltas, i as int),
            decreases n - i,
        {
            let d: Delta = batch.delta_at(i);
            self.apply_delta(&d);
            i += 1;
        }
    }

    /// The size resting at `price` on the buy side, if any.
    pub fn bid_size(&self, price: u64) -> (r: Option<u64>)
        ensures
            r == (if self@.bids.contains_key(price) {
                Some(self@.bids[price])
            } else {
                None::<u64>
            }),
    {
        match self.bids.get(&price) {
            Some(size) => Some(*size),
            None => None,
        }
    }

    /// The size resting at `price` on the sell side, if any.
    pub fn ask_size(&self, price: u64) -> (r: Option<u64>)
        ensures
            r == (if self@.asks.contains_key(price) {
                Some(self@.asks[price])
            } else {
                None::<u64>
            }),
    {
        match self.asks.get(&price) {
            Some(size) => Some(*size),
            None => None,
        }
    }

    /// How many price levels the buy side holds.
    pub fn bid_levels(&self) -> (n: usize)
        ensures
            n == self@.bids.len(),
    {
        self.bids.len()
    }

    /// How many price levels the sell side holds.
    pub fn ask_levels(&self) -> (n: usize)
        ensures
            n == self@.asks.len(),
    {
        self.asks.len()
    }
}

/// A completing snapshot replaces book state: applying a batch whose flags
/// mark it as a completing snapshot and whose first delta is a clear gives
/// the same book from any prior state, so no stale level survives it.
///
/// The leading clear carries the guarantee: a snapshot-flagged batch whose
/// first delta is not a clear amends the prior book instead of replacing
/// it.
pub proof fn lemma_snapshot_replaces_book(b: BookModel, batch: BatchView)
    requires
        spec_is_completing_snapshot(batch.flags),
        batch.deltas.len() > 0,
        batch.deltas[0].action == BookAction::Clear,
    ensures
        spec_apply_batch(b, batch) == spec_apply_batch(spec_empty_book(), batch),
{
    assert(spec_apply_deltas_from(b, batch.deltas, 0)
        == spec_apply_deltas_from(spec_apply_delta(b, batch.deltas[0]), batch.deltas, 1));
    assert(spec_apply_deltas_from(spec_empty_book(), batch.deltas, 0)
        == spec_apply_deltas_from(spec_apply_delta(spec_empty_book(), batch.deltas[0]), batch.deltas, 1));
}

} // verus!
