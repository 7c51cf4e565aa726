//! Per-instrument sequencing and gap detection.
//!
//! The sequencer tracks, for each instrument, the last sequence number it
//! has seen, and classifies every incoming batch as in-order, duplicate or
//! gapped.  Sequence numbers are compared as unsigned integers; wrap-around
//! is assumed never to occur within a session and is not handled.

use vstd::prelude::*;

use crate::batch::DeltaBatch;
use crate::delta::InstrumentId;
use crate::delta::spec_is_completing_snapshot;
use crate::delta::is_completing_snapshot;
use std::collections::HashMap;

verus! {

broadcast use vstd::std_specs::hash::group_hash_axioms;

/// How the sequencer judged a batch.  `Duplicate` and `Gapped` are signals,
/// not errors: a duplicate is dropped, a gap obliges the consumer to
/// request a fresh snapshot.
#[derive(Clone, Copy, Debug, PartialEq, Eq, Structural, Hash)]
pub enum SequenceClassification {
    /// The batch is in order and may be applied incrementally.
    Synced,
    /// One or more batches were missed; the book must be resynchronized
    /// from a snapshot before incremental application resumes.
    Gapped,
    /// The batch's sequence number was already seen; it is to be discarded.
    Duplicate,
}

/// The sequencing state of one instrument.
#[derive(Clone, Copy, Debug, PartialEq, Eq, Structural, Hash)]
pub enum InstrumentState {
    /// No batch has been seen for the instrument yet.
    Uninitialized,
    /// The stream is in order; `last_seen` is the sequence number of the
    /// last accepted batch.
    Synced { last_seen: u64 },
    /// A gap was detected after `last_seen`; only a completing snapshot
    /// batch recovers the stream.
    Gapped { last_seen: u64 },
}

/// The last sequence number recorded in a state, if any.
pub open spec fn spec_last_seen(st: InstrumentState) -> Option<u64> {
    match st {
        InstrumentState::Uninitialized => None,
        InstrumentState::Synced { last_seen } => Some(last_seen),
        InstrumentState::Gapped { last_seen } => Some(last_seen),
    }
}

/// The transition function of the per-instrument state machine: from the
/// configured `increment`, the current state, the incoming batch's
/// `sequence` and whether its flags mark a completing snapshot, to the next
/// state and the classification handed to the caller.
///
/// * The first batch of an instrument is accepted unconditionally and its
///   sequence recorded.
/// * In any initialized state, `sequence <= last_seen` is a duplicate and
///   changes nothing.
/// * While synced, exactly `last_seen + increment` continues the stream;
///   any other forward step is a discontinuity and marks the instrument
///   gapped, keeping `last_seen` at the last accepted batch.
/// * While gapped, only a completing snapshot with a fresh sequence number
///   resynchronizes; everything else forward stays gapped.
pub open spec fn spec_step(
    increment: u64,
    st: InstrumentState,
    sequence: u64,
    completing_snapshot: bool,
) -> (InstrumentState, SequenceClassification) {
    match st {
        InstrumentState::Uninitialized => (
            InstrumentState::Synced { last_seen: sequence },
            SequenceClassification::Synced,
        ),
        InstrumentState::Synced { last_seen } => if sequence <= last_seen {
            (st, SequenceClassification::Duplicate)
        } else if sequence == last_seen + increment {
            (InstrumentState::Synced { last_seen: sequence }, SequenceClassification::Synced)
        } else {
            (InstrumentState::Gapped { last_seen }, SequenceClassification::Gapped)
        },
        InstrumentState::Gapped { last_seen } => if sequence <= last_seen {
            (st, SequenceClassification::Duplicate)
        } else if completing_snapshot {
            (InstrumentState::Synced { last_seen: sequence }, SequenceClassification::Synced)
        } else {
            (st, SequenceClassification::Gapped)
        },
    }
}

/// The mathematical value of a [`Sequencer`]: the configured increment and
/// the map from instrument key to its tracked state.  An instrument absent
/// from the map is `Uninitialized`.
pub struct SequencerView {
    pub increment: u64,
    pub states: Map<u64, InstrumentState>,
}

/// The state the sequencer value `v` holds for instrument key `key`.
pub open spec fn spec_state_of(v: SequencerView, key: u64) -> InstrumentState {
    if v.states.contains_key(key) {
        v.states[key]
    } else {
        InstrumentState::Uninitialized
    }
}

/// Tracks the sequencing state of every instrument of one logical stream.
/// Per-instrument states are fully independent: processing a batch touches
/// the state of its instrument and no other.
pub struct Sequencer {
    increment: u64,
    states: HashMap<u64, InstrumentState>,
}

impl View for Sequencer {
    type V = SequencerView;

    closed spec fn view(&self) -> SequencerView {
        SequencerView { increment: self.increment, states: self.states@ }
    }
}

impl Sequencer {
    /// A sequencer for a venue whose sequence numbers advance by one.
    pub fn new() -> (s: Sequencer)
        ensures
            s@.increment == 1,
            s@.states == Map::<u64, InstrumentState>::empty(),
    {
        Sequencer { increment: 1, states: HashMap::new() }
    }

    /// A sequencer for a venue whose sequence numbers advance by
    /// `increment` per batch.  The increment is venue configuration and
    /// must be at least one.
    pub fn with_increment(increment: u64) -> (s: Sequencer)
        requires
            increment >= 1,
        ensures
            s@.increment == increment,
            s@.states == Map::<u64, InstrumentState>::empty(),
    {
        Sequencer { increment, states: HashMap::new() }
    }

    /// The configured sequence increment.
    pub fn increment(&self) -> (inc: u64)
        ensures
            inc == self@.increment,
    {
        self.increment
    }

    /// Classifies `batch` for its instrument and advances that
    /// instrument's state by [`spec_step`].  States of all other
    /// instruments are untouched.
    pub fn process(&mut self, batch: &DeltaBatch) -> (c: SequenceClassification)
        ensures
            ({
                let key = batch@.instrument_id.value;
                let step = spec_step(
                    old(self)@.increment,
                    spec_state_of(old(self)@, key),
                    batch@.sequence,
                    spec_is_completing_snapshot(batch@.flags),
                );
                &&& c == step.1
                &&& final(self)@.states == old(self)@.states.insert(key, step.0)
                &&& spec_state_of(final(self)@, key) == step.0
                &&& forall|other: u64|
                    other != key ==> spec_state_of(final(self)@, other) == spec_state_of(
                        old(self)@,
                        other,
                    )
                &&& final(self)@.increment == old(self)@.increment
            }),
    {
        let key: u64 = batch.instrument_id().value;
        let sequence: u64 = batch.sequence();
        let snapshot: bool = is_completing_snapshot(batch.flags());
        let st: InstrumentState = match self.states.get(&key) {
            Some(st) => *st,
            None => InstrumentState::Uninitialized,
        };
        let (next, classification): (InstrumentState, SequenceClassification) = match st {
            InstrumentState::Uninitialized => (
                InstrumentState::Synced { last_seen: sequence },
                SequenceClassification::Synced,
            ),
            InstrumentState::Synced { last_seen } => if sequence <= last_seen {
                (st, SequenceClassification::Duplicate)
            } else if sequence - last_seen == self.increment {
                (InstrumentState::Synced { last_seen: sequence }, SequenceClassification::Synced)
            } else {
                (InstrumentState::Gapped { last_seen }, SequenceClassification::Gapped)
            },
            InstrumentState::Gapped { last_seen } => if sequence <= last_seen {
                (st, SequenceClassification::Duplicate)
            } else if snapshot {
                (InstrumentState::Synced { last_seen: sequence }, SequenceClassification::Synced)
            } else {
                (st, SequenceClassification::Gapped)
            },
        };
        self.states.insert(key, next);
        classification
    }

    /// The tracked state of an instrument; `Uninitialized` when no batch
    /// of it was ever processed.
    pub fn state(&self, instrument_id: InstrumentId) -> (st: InstrumentState)
        ensures
            st == spec_state_of(self@, instrument_id.value),
    {
        match self.states.get(&instrument_id.value) {
            Some(st) => *st,
            None => InstrumentState::Uninitialized,
        }
    }

    /// The last sequence number recorded for an instrument, `None` while
    /// it is uninitialized.
    pub fn last_seen(&self, instrument_id: InstrumentId) -> (r: Option<u64>)
        ensures
            r == spec_last_seen(spec_state_of(self@, instrument_id.value)),
    {
        match self.states.get(&instrument_id.value) {
            Some(InstrumentState::Synced { last_seen }) => Some(*last_seen),
            Some(InstrumentState::Gapped { last_seen }) => Some(*last_seen),
            Some(InstrumentState::Uninitialized) => None,
            None => None,
        }
    }
}

/// Instrument isolation: advancing the state of one instrument never
/// changes the state the sequencer holds for any other instrument.  With
/// one logical stream driving each instrument, per-instrument states are
/// fully independent, so instruments may be processed on separate threads
/// or tasks without observing each other.
pub proof fn lemma_instrument_isolation(
    v: SequencerView,
    key: u64,
    st: InstrumentState,
    other: u64,
)
    requires
        other != key,
    ensures
        spec_state_of(SequencerView { increment: v.increment, states: v.states.insert(key, st) }, other)
            == spec_state_of(v, other),
{
}

} // verus!
