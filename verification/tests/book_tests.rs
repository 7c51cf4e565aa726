use book_deltas::batch::DeltaBatch;
use book_deltas::book::Book;
use book_deltas::delta::BookAction;
use book_deltas::delta::Delta;
use book_deltas::delta::InstrumentId;
use book_deltas::delta::Side;
use book_deltas::delta::FLAG_LAST;
use book_deltas::delta::FLAG_SNAPSHOT;

fn delta(action: BookAction, side: Side, price: u64, size: u64, sequence: u64) -> Delta {
    Delta::new(InstrumentId::new(1), action, side, price, size, None, 0, sequence, 10, 20)
}

fn batch_of(deltas: Vec<Delta>, flags: u8) -> DeltaBatch {
    let sequence = deltas.last().map(|d| d.sequence).unwrap_or(1);
    DeltaBatch::new(InstrumentId::new(1), deltas, flags, sequence, 10, 20).expect("valid batch")
}

#[test]
fn add_update_delete_levels() {
    let mut book = Book::new();
    let batch = batch_of(
        vec![
            delta(BookAction::Add, Side::Buy, 100, 5, 1),
            delta(BookAction::Add, Side::Sell, 101, 7, 2),
            delta(BookAction::Update, Side::Buy, 100, 9, 3),
            delta(BookAction::Delete, Side::Sell, 101, 0, 4),
        ],
        0,
    );
    book.apply_batch(&batch);
    assert_eq!(book.bid_size(100), Some(9));
    assert_eq!(book.ask_size(101), None);
    assert_eq!(book.bid_levels(), 1);
    assert_eq!(book.ask_levels(), 0);
}

#[test]
fn order_within_a_batch_is_meaningful() {
    let mut book = Book::new();
    book.apply_batch(&batch_of(vec![delta(BookAction::Add, Side::Buy, 100, 5, 1)], 0));
    // Delete then add at the same price: the level must survive.
    book.apply_batch(&batch_of(
        vec![
            delta(BookAction::Delete, Side::Buy, 100, 0, 2),
            delta(BookAction::Add, Side::Buy, 100, 8, 3),
        ],
        0,
    ));
    assert_eq!(book.bid_size(100), Some(8));
    // Add then delete at the same price: the level must be gone.
    book.apply_batch(&batch_of(
        vec![
            delta(BookAction::Add, Side::Buy, 200, 4, 4),
            delta(BookAction::Delete, Side::Buy, 200, 0, 5),
        ],
        0,
    ));
    assert_eq!(book.bid_size(200), None);
}

#[test]
fn clear_discards_levels_before_later_deltas_apply() {
    let mut book = Book::new();
    book.apply_batch(&batch_of(
        vec![
            delta(BookAction::Add, Side::Buy, 100, 5, 1),
            delta(BookAction::Add, Side::Sell, 105, 6, 2),
        ],
        0,
    ));
    let mut deltas = vec![Delta::clear(InstrumentId::new(1), 3, 10, 20)];
    deltas.push(delta(BookAction::Add, Side::Buy, 90, 2, 4));
    book.apply_batch(&batch_of(deltas, 0));
    assert_eq!(book.bid_size(100), None);
    assert_eq!(book.ask_size(105), None);
    assert_eq!(book.bid_size(90), Some(2));
    assert_eq!(book.bid_levels(), 1);
    assert_eq!(book.ask_levels(), 0);
}

#[test]
fn completing_snapshot_fully_replaces_prior_state() {
    // A book with stale levels and a fresh book receive the same snapshot;
    // they must end up identical, i.e. no stale level survives.
    let mut stale = Book::new();
    stale.apply_batch(&batch_of(
        vec![
            delta(BookAction::Add, Side::Buy, 100, 5, 1),
            delta(BookAction::Add, Side::Buy, 99, 1, 2),
            delta(BookAction::Add, Side::Sell, 105, 6, 3),
        ],
        0,
    ));
    let mut fresh = Book::new();
    let snapshot_deltas = vec![
        Delta::clear(InstrumentId::new(1), 10, 10, 20),
        delta(BookAction::Add, Side::Buy, 101, 3, 10),
        delta(BookAction::Add, Side::Sell, 102, 4, 10),
    ];
    let snapshot = batch_of(snapshot_deltas, FLAG_SNAPSHOT | FLAG_LAST);
    stale.apply_batch(&snapshot);
    fresh.apply_batch(&snapshot);
    for price in [99, 100, 101, 102, 105] {
        assert_eq!(stale.bid_size(price), fresh.bid_size(price));
        assert_eq!(stale.ask_size(price), fresh.ask_size(price));
    }
    assert_eq!(stale.bid_levels(), 1);
    assert_eq!(stale.ask_levels(), 1);
    assert_eq!(stale.bid_size(101), Some(3));
    assert_eq!(stale.ask_size(102), Some(4));
    assert_eq!(stale.bid_size(100), None);
    assert_eq!(stale.bid_size(99), None);
    assert_eq!(stale.ask_size(105), None);
}

#[test]
fn empty_clear_batch_leaves_book_unchanged() {
    // The explicit clear batch carries no deltas; applying it is a no-op on
    // the book (the clearing is done by a clear delta, not by the flag).
    let mut book = Book::new();
    book.apply_batch(&batch_of(vec![delta(BookAction::Add, Side::Buy, 100, 5, 1)], 0));
    let empty = DeltaBatch::new(
        InstrumentId::new(1),
        Vec::new(),
        book_deltas::delta::FLAG_CLEAR,
        2,
        10,
        20,
    )
    .expect("explicit clear batch");
    book.apply_batch(&empty);
    assert_eq!(book.bid_size(100), Some(5));
}
