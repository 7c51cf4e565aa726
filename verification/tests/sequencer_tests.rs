use book_deltas::batch::DeltaBatch;
use book_deltas::delta::BookAction;
use book_deltas::delta::Delta;
use book_deltas::delta::InstrumentId;
use book_deltas::delta::Side;
use book_deltas::delta::FLAG_LAST;
use book_deltas::delta::FLAG_SNAPSHOT;
use book_deltas::sequencer::InstrumentState;
use book_deltas::sequencer::SequenceClassification;
use book_deltas::sequencer::Sequencer;

fn batch(instrument: u64, sequence: u64, flags: u8) -> DeltaBatch {
    let id = InstrumentId::new(instrument);
    let delta =
        Delta::new(id, BookAction::Add, Side::Buy, 50, 1, None, 0, sequence, 1_000, 2_000);
    DeltaBatch::new(id, vec![delta], flags, sequence, 1_000, 2_000).expect("valid batch")
}

#[test]
fn in_order_stream_all_synced() {
    let mut seq = Sequencer::new();
    let id = InstrumentId::new(1);
    for n in [1u64, 2, 3] {
        assert_eq!(seq.process(&batch(1, n, 0)), SequenceClassification::Synced);
    }
    assert_eq!(seq.last_seen(id), Some(3));
    assert_eq!(seq.state(id), InstrumentState::Synced { last_seen: 3 });
}

#[test]
fn gap_is_detected() {
    let mut seq = Sequencer::new();
    let id = InstrumentId::new(1);
    assert_eq!(seq.process(&batch(1, 1, 0)), SequenceClassification::Synced);
    assert_eq!(seq.process(&batch(1, 2, 0)), SequenceClassification::Synced);
    assert_eq!(seq.process(&batch(1, 5, 0)), SequenceClassification::Gapped);
    assert_eq!(seq.last_seen(id), Some(2));
    assert_eq!(seq.state(id), InstrumentState::Gapped { last_seen: 2 });
}

#[test]
fn duplicate_is_reported_and_ignored() {
    let mut seq = Sequencer::new();
    let id = InstrumentId::new(1);
    assert_eq!(seq.process(&batch(1, 1, 0)), SequenceClassification::Synced);
    assert_eq!(seq.process(&batch(1, 2, 0)), SequenceClassification::Synced);
    assert_eq!(seq.process(&batch(1, 2, 0)), SequenceClassification::Duplicate);
    assert_eq!(seq.last_seen(id), Some(2));
    assert_eq!(seq.state(id), InstrumentState::Synced { last_seen: 2 });
}

#[test]
fn first_batch_is_accepted_unconditionally() {
    let mut seq = Sequencer::new();
    let id = InstrumentId::new(1);
    assert_eq!(seq.last_seen(id), None);
    assert_eq!(seq.state(id), InstrumentState::Uninitialized);
    assert_eq!(seq.process(&batch(1, 42, 0)), SequenceClassification::Synced);
    assert_eq!(seq.last_seen(id), Some(42));
}

#[test]
fn completing_snapshot_recovers_a_gap() {
    let mut seq = Sequencer::new();
    let id = InstrumentId::new(1);
    seq.process(&batch(1, 1, 0));
    assert_eq!(seq.process(&batch(1, 5, 0)), SequenceClassification::Gapped);
    let snapshot = batch(1, 9, FLAG_SNAPSHOT | FLAG_LAST);
    assert_eq!(seq.process(&snapshot), SequenceClassification::Synced);
    assert_eq!(seq.last_seen(id), Some(9));
    assert_eq!(seq.process(&batch(1, 10, 0)), SequenceClassification::Synced);
}

#[test]
fn plain_batches_do_not_recover_a_gap() {
    let mut seq = Sequencer::new();
    let id = InstrumentId::new(1);
    seq.process(&batch(1, 1, 0));
    assert_eq!(seq.process(&batch(1, 5, 0)), SequenceClassification::Gapped);
    assert_eq!(seq.process(&batch(1, 6, 0)), SequenceClassification::Gapped);
    assert_eq!(seq.process(&batch(1, 2, 0)), SequenceClassification::Gapped);
    assert_eq!(seq.last_seen(id), Some(1));
    // An incomplete snapshot burst does not recover either.
    assert_eq!(seq.process(&batch(1, 7, FLAG_SNAPSHOT)), SequenceClassification::Gapped);
}

#[test]
fn duplicates_while_gapped_stay_duplicates() {
    let mut seq = Sequencer::new();
    seq.process(&batch(1, 3, 0));
    assert_eq!(seq.process(&batch(1, 9, 0)), SequenceClassification::Gapped);
    assert_eq!(seq.process(&batch(1, 3, 0)), SequenceClassification::Duplicate);
    assert_eq!(seq.process(&batch(1, 2, 0)), SequenceClassification::Duplicate);
    assert_eq!(seq.last_seen(InstrumentId::new(1)), Some(3));
}

#[test]
fn venue_increment_is_respected() {
    let mut seq = Sequencer::with_increment(10);
    assert_eq!(seq.increment(), 10);
    assert_eq!(seq.process(&batch(1, 10, 0)), SequenceClassification::Synced);
    assert_eq!(seq.process(&batch(1, 20, 0)), SequenceClassification::Synced);
    assert_eq!(seq.process(&batch(1, 25, 0)), SequenceClassification::Gapped);
    assert_eq!(seq.last_seen(InstrumentId::new(1)), Some(20));
}

#[test]
fn instruments_never_observe_each_other() {
    let mut seq = Sequencer::new();
    let left = InstrumentId::new(1);
    let right = InstrumentId::new(2);
    assert_eq!(seq.process(&batch(1, 1, 0)), SequenceClassification::Synced);
    assert_eq!(seq.process(&batch(2, 100, 0)), SequenceClassification::Synced);
    assert_eq!(seq.process(&batch(1, 2, 0)), SequenceClassification::Synced);
    assert_eq!(seq.process(&batch(2, 101, 0)), SequenceClassification::Synced);
    // A gap on one instrument leaves the other synced and untouched.
    assert_eq!(seq.process(&batch(1, 9, 0)), SequenceClassification::Gapped);
    assert_eq!(seq.last_seen(left), Some(2));
    assert_eq!(seq.state(right), InstrumentState::Synced { last_seen: 101 });
    assert_eq!(seq.process(&batch(2, 102, 0)), SequenceClassification::Synced);
    assert_eq!(seq.state(left), InstrumentState::Gapped { last_seen: 2 });
}

#[test]
fn separate_sequencers_are_fully_independent() {
    // One sequencer per instrument, as when instruments are sharded across
    // threads: no shared state at all.
    let mut left = Sequencer::new();
    let mut right = Sequencer::new();
    left.process(&batch(1, 1, 0));
    right.process(&batch(2, 50, 0));
    left.process(&batch(1, 7, 0));
    assert_eq!(left.state(InstrumentId::new(1)), InstrumentState::Gapped { last_seen: 1 });
    assert_eq!(right.state(InstrumentId::new(2)), InstrumentState::Synced { last_seen: 50 });
}

#[test]
fn gap_while_synced_needs_a_later_snapshot() {
    // Even a completing snapshot that itself jumps the sequence is reported
    // as a gap while the stream is synced; recovery happens from the gapped
    // state.
    let mut seq = Sequencer::new();
    seq.process(&batch(1, 1, 0));
    let jumping_snapshot = batch(1, 5, FLAG_SNAPSHOT | FLAG_LAST);
    assert_eq!(seq.process(&jumping_snapshot), SequenceClassification::Gapped);
    assert_eq!(seq.process(&batch(1, 6, FLAG_SNAPSHOT | FLAG_LAST)), SequenceClassification::Synced);
}
