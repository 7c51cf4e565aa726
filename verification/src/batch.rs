//! An instrument-scoped, ordered batch of deltas sharing one sequence
//! number, one flag set and two timestamps.
//!
//! A batch is constructed once by the parsing layer, validated at
//! construction, and never mutated afterwards: the fields are private and no
//! mutating method exists, so every reachable `DeltaBatch` value satisfies
//! [`DeltaBatch::wf`].

use vstd::prelude::*;

use crate::delta::BookAction;
use crate::delta::Delta;
use crate::delta::InstrumentId;
use crate::delta::Side;
use crate::delta::marks_clear;
use crate::delta::spec_marks_clear;
use vstd::std_specs::cmp::PartialEqSpec;

verus! {

/// Why a batch was rejected at construction.  A rejected batch never
/// reaches the sequencer; there is no partial-success state.
#[derive(Clone, Copy, Debug, PartialEq, Eq, Structural, Hash)]
pub enum ValidationError {
    /// The delta sequence is empty and the flags do not mark the batch as an
    /// explicit clear.
    Empty,
    /// Some contained delta declares a different instrument than the batch.
    InstrumentMismatch,
}

/// The mathematical value of a [`DeltaBatch`]: the same fields with the
/// delta sequence abstracted to a `Seq`.
pub struct BatchView {
    pub instrument_id: InstrumentId,
    pub deltas: Seq<Delta>,
    pub flags: u8,
    pub sequence: u64,
    pub ts_event: u64,
    pub ts_init: u64,
}

/// True when every delta of `deltas` declares `instrument_id` as its
/// instrument.
pub open spec fn spec_all_match(instrument_id: InstrumentId, deltas: Seq<Delta>) -> bool {
    forall|i: int| 0 <= i < deltas.len() ==> #[trigger] deltas[i].instrument_id == instrument_id
}

/// True when `deltas` may stand in a batch with flag bits `flags`: the
/// sequence is non-empty, or the flags mark an explicit clear.
pub open spec fn spec_nonempty_or_clear(deltas: Seq<Delta>, flags: u8) -> bool {
    deltas.len() > 0 || spec_marks_clear(flags)
}

/// True when the per-delta sequence numbers of `deltas` are non-decreasing
/// left to right, the order a well-formed feed emits them in.  This is a
/// property of the feed, not a construction-time check: a batch violating
/// it is still accepted, and consumers test it with
/// [`DeltaBatch::has_nondecreasing_sequences`].
pub open spec fn spec_nondecreasing_sequences(deltas: Seq<Delta>) -> bool {
    forall|i: int, j: int|
        0 <= i <= j < deltas.len() ==> #[trigger] deltas[i].sequence <= #[trigger] deltas[j].sequence
}

/// The outcome construction owes for the given inputs: the empty check
/// first, then the instrument check, then acceptance.
pub open spec fn spec_validate(
    instrument_id: InstrumentId,
    deltas: Seq<Delta>,
    flags: u8,
) -> Result<(), ValidationError> {
    if !spec_nonempty_or_clear(deltas, flags) {
        Err(ValidationError::Empty)
    } else if !spec_all_match(instrument_id, deltas) {
        Err(ValidationError::InstrumentMismatch)
    } else {
        Ok(())
    }
}

/// An ordered, instrument-scoped collection of deltas, applied left to
/// right, sharing one venue-assigned sequence number.
#[derive(Clone, Debug, Hash)]
pub struct DeltaBatch {
    instrument_id: InstrumentId,
    deltas: Vec<Delta>,
    flags: u8,
    sequence: u64,
    ts_event: u64,
    ts_init: u64,
}

impl View for DeltaBatch {
    type V = BatchView;

    closed spec fn view(&self) -> BatchView {
        BatchView {
            instrument_id: self.instrument_id,
            deltas: self.deltas@,
            flags: self.flags,
            sequence: self.sequence,
            ts_event: self.ts_event,
            ts_init: self.ts_init,
        }
    }
}

impl DeltaBatch {
    /// The batch invariant: no cross-instrument mixing, and only an explicit
    /// clear batch may be empty.  Construction establishes it and nothing
    /// mutates a batch afterwards.
    pub open spec fn wf(self) -> bool {
        &&& spec_nonempty_or_clear(self@.deltas, self@.flags)
        &&& spec_all_match(self@.instrument_id, self@.deltas)
    }

    /// Builds a batch from fully parsed parts, or rejects it.
    ///
    /// The result is `Err(ValidationError::Empty)` exactly when `deltas` is
    /// empty and `flags` does not mark an explicit clear, and
    /// `Err(ValidationError::InstrumentMismatch)` exactly when the sequence
    /// passes the empty check but some delta declares another instrument.
    /// Otherwise the batch holds exactly the values passed in.
    pub fn new(
        instrument_id: InstrumentId,
        deltas: Vec<Delta>,
        flags: u8,
        sequence: u64,
        ts_event: u64,
        ts_init: u64,
    ) -> (result: Result<DeltaBatch, ValidationError>)
        ensures
            match result {
                Ok(b) => {
                    &&& spec_validate(instrument_id, deltas@, flags) is Ok
                    &&& b@ == (BatchView { instrument_id, deltas: deltas@, flags, sequence, ts_event, ts_init })
                    &&& b.wf()
                },
                Err(e) => spec_validate(instrument_id, deltas@, flags) == Err::<(), ValidationError>(e),
            },
    {
        if deltas.len() == 0 && !marks_clear(flags) {
            return Err(ValidationError::Empty);
        }
        let n: usize = deltas.len();
        let mut i: usize = 0;
        while i < n
            invariant
                n == deltas@.len(),
                i <= n,
                forall|j: int| 0 <= j < i ==> #[trigger] deltas@[j].instrument_id == instrument_id,
            decreases n - i,
        {
            if deltas[i].instrument_id != instrument_id {
                return Err(ValidationError::InstrumentMismatch);
            }
            i += 1;
        }
        Ok(DeltaBatch { instrument_id, deltas, flags, sequence, ts_event, ts_init })
    }

    /// The instrument all contained deltas belong to.
    pub fn instrument_id(&self) -> (id: InstrumentId)
        ensures
            id == self@.instrument_id,
    {
        self.instrument_id
    }

    /// The contained deltas, in application order.
    pub fn deltas(&self) -> (deltas: &Vec<Delta>)
        ensures
            deltas@ == self@.deltas,
    {
        &self.deltas
    }

    /// An owned copy of the contained deltas, in application order.
    pub fn deltas_to_vec(&self) -> (deltas: Vec<Delta>)
        ensures
            deltas@ == self@.deltas,
    {
        let n: usize = self.deltas.len();
        let mut out: Vec<Delta> = Vec::new();
        let mut i: usize = 0;
        while i < n
            invariant
                n == self@.deltas.len(),
                i <= n,
                out@ == self@.deltas.take(i as int),
            decreases n - i,
        {
            out.push(self.deltas[i]);
            i += 1;
            proof {
                assert(out@ =~= self@.deltas.take(i as int));
            }
        }
        proof {
            assert(out@ =~= self@.deltas);
        }
        out
    }

    /// Batch-level flag bits.
    pub fn flags(&self) -> (flags: u8)
        ensures
            flags == self@.flags,
    {
        self.flags
    }

    /// The venue-assigned batch sequence number.
    pub fn sequence(&self) -> (sequence: u64)
        ensures
            sequence == self@.sequence,
    {
        self.sequence
    }

    /// Exchange-assigned event time (nanoseconds).
    pub fn ts_event(&self) -> (ts: u64)
        ensures
            ts == self@.ts_event,
    {
        self.ts_event
    }

    /// Local ingestion time (nanoseconds).
    pub fn ts_init(&self) -> (ts: u64)
        ensures
            ts == self@.ts_init,
    {
        self.ts_init
    }

    /// How many deltas the batch holds.
    pub fn len(&self) -> (n: usize)
        ensures
            n == self@.deltas.len(),
    {
        self.deltas.len()
    }

    /// True for the (explicit clear) batch without deltas.
    pub fn is_empty(&self) -> (b: bool)
        ensures
            b == (self@.deltas.len() == 0),
    {
        self.deltas.len() == 0
    }

    /// True when the contained deltas carry non-decreasing per-delta
    /// sequence numbers, as a well-formed feed emits them.
    pub fn has_nondecreasing_sequences(&self) -> (b: bool)
        ensures
            b == spec_nondecreasing_sequences(self@.deltas),
    {
        let n: usize = self.deltas.len();
        let mut i: usize = 1;
        while i < n
            invariant
                n == self@.deltas.len(),
                1 <= i,
                i <= n || i == 1,
                forall|p: int, q: int|
                    0 <= p <= q < i ==> #[trigger] self@.deltas[p].sequence
                        <= #[trigger] self@.deltas[q].sequence,
            decreases n - i,
        {
            if self.deltas[i - 1].sequence > self.deltas[i].sequence {
                return false;
            }
            i += 1;
        }
        true
    }

    /// The delta at position `i` in application order.
    pub fn delta_at(&self, i: usize) -> (d: Delta)
        requires
            i < self@.deltas.len(),
        ensures
            d == self@.deltas[i as int],
    {
        self.deltas[i]
    }
}

impl PartialEq for DeltaBatch {
    /// Structural equality over all fields, so batches can be deduplicated
    /// in a set or mapping.
    fn eq(&self, other: &DeltaBatch) -> (r: bool) {
        if self.instrument_id != other.instrument_id || self.flags != other.flags
            || self.sequence != other.sequence || self.ts_event != other.ts_event
            || self.ts_init != other.ts_init {
            return false;
        }
        let n: usize = self.deltas.len();
        if n != other.deltas.len() {
            return false;
        }
        let mut i: usize = 0;
        while i < n
            invariant
                n == self@.deltas.len(),
                n == other@.deltas.len(),
                i <= n,
                forall|j: int| 0 <= j < i ==> self@.deltas[j] == #[trigger] other@.deltas[j],
                self@.instrument_id == other@.instrument_id,
                self@.flags == other@.flags,
                self@.sequence == other@.sequence,
                self@.ts_event == other@.ts_event,
                self@.ts_init == other@.ts_init,
            decreases n - i,
        {
            if self.deltas[i] != other.deltas[i] {
                return false;
            }
            i += 1;
        }
        proof {
            assert(self@.deltas =~= other@.deltas);
        }
        true
    }
}

impl vstd::std_specs::cmp::PartialEqSpecImpl for DeltaBatch {
    open spec fn obeys_eq_spec() -> bool {
        true
    }

    open spec fn eq_spec(&self, other: &DeltaBatch) -> bool {
        self@ == other@
    }
}

impl Eq for DeltaBatch {

}

/// Seed of the stable batch hash (the FNV-1a 64-bit offset basis).
pub const HASH_SEED: u64 = 0xcbf29ce484222325;

/// Multiplier of the stable batch hash (the FNV-1a 64-bit prime).
pub const HASH_PRIME: u64 = 0x100000001b3;

/// One mixing step of the stable hash: fold the word `w` into the state `h`.
pub open spec fn spec_mix(h: u64, w: u64) -> u64 {
    (h ^ w).wrapping_mul(HASH_PRIME)
}

/// The word a delta action hashes as.
pub open spec fn spec_action_code(action: BookAction) -> u64 {
    match action {
        BookAction::Add => 0,
        BookAction::Update => 1,
        BookAction::Delete => 2,
        BookAction::Clear => 3,
    }
}

/// The word a delta side hashes as.
pub open spec fn spec_side_code(side: Side) -> u64 {
    match side {
        Side::Buy => 0,
        Side::Sell => 1,
    }
}

/// Folds one delta, field by field, into the hash state `h`.
pub open spec fn spec_hash_delta(h: u64, d: Delta) -> u64 {
    let h = spec_mix(h, d.instrument_id.value);
    let h = spec_mix(h, spec_action_code(d.action));
    let h = spec_mix(h, spec_side_code(d.side));
    let h = spec_mix(h, d.price);
    let h = spec_mix(h, d.size);
    let h = match d.order_id {
        None => spec_mix(h, 0),
        Some(oid) => spec_mix(spec_mix(h, 1), oid),
    };
    let h = spec_mix(h, d.flags as u64);
    let h = spec_mix(h, d.sequence);
    let h = spec_mix(h, d.ts_event);
    spec_mix(h, d.ts_init)
}

/// Folds the deltas of `s` from position `i` on into the hash state `h`.
pub open spec fn spec_hash_deltas_from(h: u64, s: Seq<Delta>, i: int) -> u64
    decreases s.len() - i,
{
    if i < 0 || i >= s.len() {
        h
    } else {
        spec_hash_deltas_from(spec_hash_delta(h, s[i]), s, i + 1)
    }
}

/// The stable hash of a batch value: a pure function of all fields of
/// [`BatchView`], so equal batches hash equally on every machine and in
/// every process.
pub open spec fn spec_stable_hash(v: BatchView) -> u64 {
    let h = spec_mix(HASH_SEED, v.instrument_id.value);
    let h = spec_mix(h, v.sequence);
    let h = spec_mix(h, v.flags as u64);
    let h = spec_mix(h, v.ts_event);
    let h = spec_mix(h, v.ts_init);
    let h = spec_mix(h, v.deltas.len() as u64);
    spec_hash_deltas_from(h, v.deltas, 0)
}

/// Runtime mixing step; see [`spec_mix`].
fn mix(h: u64, w: u64) -> (r: u64)
    ensures
        r == spec_mix(h, w),
{
    (h ^ w).wrapping_mul(HASH_PRIME)
}

/// Runtime fold of one delta; see [`spec_hash_delta`].
fn hash_delta(h: u64, d: &Delta) -> (r: u64)
    ensures
        r == spec_hash_delta(h, *d),
{
    let h = mix(h, d.instrument_id.value);
    let h = mix(h, match d.action {
        BookAction::Add => 0,
        BookAction::Update => 1,
        BookAction::Delete => 2,
        BookAction::Clear => 3,
    });
    let h = mix(h, match d.side {
        Side::Buy => 0,
        Side::Sell => 1,
    });
    let h = mix(h, d.price);
    let h = mix(h, d.size);
    let h = match d.order_id {
        None => mix(h, 0),
        Some(oid) => mix(mix(h, 1), oid),
    };
    let h = mix(h, d.flags as u64);
    let h = mix(h, d.sequence);
    let h = mix(h, d.ts_event);
    mix(h, d.ts_init)
}

impl DeltaBatch {
    /// The stable hash over all fields, fit for deduplicating batches in a
    /// set or mapping: it returns [`spec_stable_hash`] of the batch value,
    /// and nothing else enters it.
    pub fn stable_hash(&self) -> (r: u64)
        ensures
            r == spec_stable_hash(self@),
    {
        let h = mix(HASH_SEED, self.instrument_id.value);
        let h = mix(h, self.sequence);
        let h = mix(h, self.flags as u64);
        let h = mix(h, self.ts_event);
        let h = mix(h, self.ts_init);
        let n: usize = self.deltas.len();
        let mut h = mix(h, n as u64);
        let mut i: usize = 0;
        while i < n
            invariant
                n == self@.deltas.len(),
                i <= n,
                spec_stable_hash(self@) == spec_hash_deltas_from(h, self@.deltas, i as int),
            decreases n - i,
        {
            h = hash_delta(h, &self.deltas[i]);
            i += 1;
        }
        h
    }
}

/// Equality and the stable hash are consistent: two batches are equal under
/// `==` exactly when their values agree in every field, equal values hash
/// equally, and any differing field makes the batches unequal.
pub proof fn lemma_eq_hash_consistency(a: DeltaBatch, b: DeltaBatch)
    ensures
        a.eq_spec(&b) <==> a@ == b@,
        a@ == b@ ==> spec_stable_hash(a@) == spec_stable_hash(b@),
        a@ != b@ ==> !a.eq_spec(&b),
{
}

} // verus!
