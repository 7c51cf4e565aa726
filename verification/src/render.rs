//! Deterministic, human-readable renderings of deltas and batches.
//!
//! The renderings are for logs and diagnostics only, not a wire format.
//! Each is specified character by character as a pure function of the
//! rendered value, so equal values always render equally.

use vstd::prelude::*;

use crate::batch::BatchView;
use crate::batch::DeltaBatch;
use crate::delta::BookAction;
use crate::delta::Delta;
use crate::delta::Side;
use vstd::string::StringExecFns;

verus! {

/// The decimal digit `d` as a one-character string, for `0 <= d <= 9`.
pub open spec fn spec_digit_str(d: int) -> Seq<char> {
    if d == 0 {
        "0"@
    } else if d == 1 {
        "1"@
    } else if d == 2 {
        "2"@
    } else if d == 3 {
        "3"@
    } else if d == 4 {
        "4"@
    } else if d == 5 {
        "5"@
    } else if d == 6 {
        "6"@
    } else if d == 7 {
        "7"@
    } else if d == 8 {
        "8"@
    } else {
        "9"@
    }
}

/// The usual decimal rendering of a non-negative integer, without leading
/// zeroes (and `0` itself as "0").
pub open spec fn spec_dec(n: int) -> Seq<char>
    decreases n,
{
    if n < 0 {
        Seq::empty()
    } else if n < 10 {
        spec_digit_str(n)
    } else {
        spec_dec(n / 10) + spec_digit_str(n % 10)
    }
}

/// One decimal digit as a string slice.
fn digit_str(d: u64) -> (s: &'static str)
    requires
        d < 10,
    ensures
        s@ == spec_digit_str(d as int),
{
    if d == 0 {
        "0"
    } else if d == 1 {
        "1"
    } else if d == 2 {
        "2"
    } else if d == 3 {
        "3"
    } else if d == 4 {
        "4"
    } else if d == 5 {
        "5"
    } else if d == 6 {
        "6"
    } else if d == 7 {
        "7"
    } else if d == 8 {
        "8"
    } else {
        "9"
    }
}

/// Renders `n` in decimal; see [`spec_dec`].
pub fn u64_to_dec_string(n: u64) -> (s: String)
    ensures
        s@ == spec_dec(n as int),
    decreases n,
{
    if n < 10 {
        String::from_str(digit_str(n))
    } else {
        let mut s = u64_to_dec_string(n / 10);
        s.append(digit_str(n % 10));
        s
    }
}

/// The name of a book action.
pub open spec fn spec_action_label(action: BookAction) -> Seq<char> {
    match action {
        BookAction::Add => "Add"@,
        BookAction::Update => "Update"@,
        BookAction::Delete => "Delete"@,
        BookAction::Clear => "Clear"@,
    }
}

/// The name of a book side.
pub open spec fn spec_side_label(side: Side) -> Seq<char> {
    match side {
        Side::Buy => "Buy"@,
        Side::Sell => "Sell"@,
    }
}

/// How an optional order id renders.
pub open spec fn spec_order_id_label(order_id: Option<u64>) -> Seq<char> {
    match order_id {
        None => "None"@,
        Some(oid) => "Some("@ + spec_dec(oid as int) + ")"@,
    }
}

/// The rendering of one delta: every field by name, in declaration order.
pub open spec fn spec_display_delta(d: Delta) -> Seq<char> {
    "Delta(instrument_id="@ + spec_dec(d.instrument_id.value as int) + ", action="@
        + spec_action_label(d.action) + ", side="@ + spec_side_label(d.side) + ", price="@
        + spec_dec(d.price as int) + ", size="@ + spec_dec(d.size as int) + ", order_id="@
        + spec_order_id_label(d.order_id) + ", flags="@ + spec_dec(d.flags as int)
        + ", sequence="@ + spec_dec(d.sequence as int) + ", ts_event="@
        + spec_dec(d.ts_event as int) + ", ts_init="@ + spec_dec(d.ts_init as int) + ")"@
}

/// The action name as a string slice.
fn action_str(action: BookAction) -> (s: &'static str)
    ensures
        s@ == spec_action_label(action),
{
    match action {
        BookAction::Add => "Add",
        BookAction::Update => "Update",
        BookAction::Delete => "Delete",
        BookAction::Clear => "Clear",
    }
}

/// The side name as a string slice.
fn side_str(side: Side) -> (s: &'static str)
    ensures
        s@ == spec_side_label(side),
{
    match side {
        Side::Buy => "Buy",
        Side::Sell => "Sell",
    }
}

/// Renders one delta; see [`spec_display_delta`].
pub fn delta_to_display_string(d: &Delta) -> (s: String)
    ensures
        s@ == spec_display_delta(*d),
{
    let mut s = String::from_str("Delta(instrument_id=");
    let num = u64_to_dec_string(d.instrument_id.value);
    s.append(num.as_str());
    s.append(", action=");
    s.append(action_str(d.action));
    s.append(", side=");
    s.append(side_str(d.side));
    s.append(", price=");
    let num = u64_to_dec_string(d.price);
    s.append(num.as_str());
    s.append(", size=");
    let num = u64_to_dec_string(d.size);
    s.append(num.as_str());
    s.append(", order_id=");
    match d.order_id {
        None => {
            s.append("None");
        },
        Some(oid) => {
            s.append("Some(");
            let num = u64_to_dec_string(oid);
            s.append(num.as_str());
            s.append(")");
        },
    }
    s.append(", flags=");
    let num = u64_to_dec_string(d.flags as u64);
    s.append(num.as_str());
    s.append(", sequence=");
    let num = u64_to_dec_string(d.sequence);
    s.append(num.as_str());
    s.append(", ts_event=");
    let num = u64_to_dec_string(d.ts_event);
    s.append(num.as_str());
    s.append(", ts_init=");
    let num = u64_to_dec_string(d.ts_init);
    s.append(num.as_str());
    s.append(")");
    proof {
        assert(s@ =~= spec_display_delta(*d));
    }
    s
}

/// The rendering of the deltas of `s` from position `i` on, each preceded
/// by a separator.
pub open spec fn spec_deltas_tail(s: Seq<Delta>, i: int) -> Seq<char>
    decreases s.len() - i,
{
    if i < 0 || i >= s.len() {
        Seq::empty()
    } else {
        ", "@ + spec_display_delta(s[i]) + spec_deltas_tail(s, i + 1)
    }
}

/// The rendering of a delta sequence: the deltas in order, separated by
/// commas.
pub open spec fn spec_display_deltas(s: Seq<Delta>) -> Seq<char> {
    if s.len() == 0 {
        Seq::empty()
    } else {
        spec_display_delta(s[0]) + spec_deltas_tail(s, 1)
    }
}

/// The rendering of a whole batch value: every batch field by name, then
/// the contained deltas in application order.
pub open spec fn spec_display_batch(v: BatchView) -> Seq<char> {
    "DeltaBatch(instrument_id="@ + spec_dec(v.instrument_id.value as int) + ", sequence="@
        + spec_dec(v.sequence as int) + ", flags="@ + spec_dec(v.flags as int) + ", ts_event="@
        + spec_dec(v.ts_event as int) + ", ts_init="@ + spec_dec(v.ts_init as int) + ", deltas=["@
        + spec_display_deltas(v.deltas) + "])"@
}

impl DeltaBatch {
    /// Renders the batch for logs and diagnostics; see
    /// [`spec_display_batch`].
    pub fn to_display_string(&self) -> (s: String)
        ensures
            s@ == spec_display_batch(self@),
    {
        let mut s = String::from_str("DeltaBatch(instrument_id=");
        let num = u64_to_dec_string(self.instrument_id().value);
        s.append(num.as_str());
        s.append(", sequence=");
        let num = u64_to_dec_string(self.sequence());
        s.append(num.as_str());
        s.append(", flags=");
        let num = u64_to_dec_string(self.flags() as u64);
        s.append(num.as_str());
        s.append(", ts_event=");
        let num = u64_to_dec_string(self.ts_event());
        s.append(num.as_str());
        s.append(", ts_init=");
        let num = u64_to_dec_string(self.ts_init());
        s.append(num.as_str());
        s.append(", deltas=[");
        let ghost prefix: Seq<char> = s@;
        let n: usize = self.len();
        if n > 0 {
            let d: Delta = self.delta_at(0);
            let piece = delta_to_display_string(&d);
            s.append(piece.as_str());
            let mut i: usize = 1;
            while i < n
                invariant
                    n == self@.deltas.len(),
                    1 <= i <= n,
                    s@ == prefix + spec_display_delta(self@.deltas[0]) + seq_up_to(self@.deltas, i as int),
                decreases n - i,
            {
                let d: Delta = self.delta_at(i);
                s.append(", ");
                let piece = delta_to_display_string(&d);
                s.append(piece.as_str());
                proof {
                    assert(s@ =~= prefix + spec_display_delta(self@.deltas[0]) + seq_up_to(
                        self@.deltas,
                        i + 1,
                    ));
                }
                i += 1;
            }
            proof {
                lemma_seq_up_to_full(self@.deltas, spec_display_delta(self@.deltas[0]));
                assert(prefix + spec_display_delta(self@.deltas[0]) + seq_up_to(
                    self@.deltas,
                    n as int,
                ) =~= prefix + spec_display_deltas(self@.deltas));
            }
        }
        s.append("])");
        proof {
            assert(s@ =~= spec_display_batch(self@));
        }
        s
    }
}

/// The rendering of the deltas of `s` after the first, up to (excluding)
/// position `i`, each preceded by a separator: what the rendering loop has
/// produced after `i` deltas.
spec fn seq_up_to(s: Seq<Delta>, i: int) -> Seq<char>
    decreases i,
{
    if i <= 1 {
        Seq::empty()
    } else {
        seq_up_to(s, i - 1) + ", "@ + spec_display_delta(s[i - 1])
    }
}

/// Rendering all deltas after the first, front to back, gives the same
/// characters as the back-to-front tail rendering the batch specification
/// is phrased with.
proof fn lemma_seq_up_to_matches_tail(s: Seq<Delta>, i: int)
    requires
        1 <= i <= s.len(),
    ensures
        seq_up_to(s, i) + spec_deltas_tail(s, i) == seq_up_to(s, s.len() as int) + spec_deltas_tail(
            s,
            s.len() as int,
        ),
    decreases s.len() - i,
{
    if i < s.len() {
        assert(seq_up_to(s, i + 1) =~= seq_up_to(s, i) + ", "@ + spec_display_delta(s[i]));
        assert(seq_up_to(s, i) + spec_deltas_tail(s, i) =~= seq_up_to(s, i + 1)
            + spec_deltas_tail(s, i + 1));
        lemma_seq_up_to_matches_tail(s, i + 1);
    }
}

/// For a non-empty delta sequence, the loop-shaped rendering equals the
/// specification-shaped one.
proof fn lemma_seq_up_to_full(s: Seq<Delta>, head: Seq<char>)
    requires
        s.len() > 0,
        head == spec_display_delta(s[0]),
    ensures
        head + seq_up_to(s, s.len() as int) == spec_display_deltas(s),
{
    lemma_seq_up_to_matches_tail(s, 1);
    assert(seq_up_to(s, 1) + spec_deltas_tail(s, 1) =~= spec_deltas_tail(s, 1));
    assert(seq_up_to(s, s.len() as int) + spec_deltas_tail(s, s.len() as int) =~= seq_up_to(
        s,
        s.len() as int,
    ));
    assert(head + seq_up_to(s, s.len() as int) =~= spec_display_deltas(s));
}

} // verus!
