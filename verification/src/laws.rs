//! The store's laws, proved over the abstract model: bounded FIFO
//! retention, the behaviour of the filtered view under the empty and the
//! unsatisfiable filter, idempotence of filter updates, the bottom-jump
//! round trip, and the clamping of an overshooting scroll.

use vstd::prelude::*;

use crate::model::StoreModel;
use crate::model::add_line_model;
use crate::model::init_model;
use crate::model::matched;
use crate::model::matched_of;
use crate::model::min_nat;
use crate::model::scroll_down_model;
use crate::model::scroll_to_bottom_model;
use crate::model::update_filter_model;
use crate::model::visible;
use crate::pattern::line_matches;
use crate::pattern::pattern_ok;

verus! {

/// The store after a whole sequence of insertions, in call order.
pub open spec fn apply_add_lines(m: StoreModel, calls: Seq<Seq<char>>) -> StoreModel
    decreases calls.len(),
{
    if calls.len() == 0 {
        m
    } else {
        add_line_model(apply_add_lines(m, calls.drop_last()), calls.last())
    }
}

/// FIFO eviction law: after any sequence of insertions into a fresh store,
/// at most `capacity` lines are retained, and they are exactly the most
/// recent `min(calls, capacity)` inserted lines, in call order. Since this
/// holds of every call sequence, it holds at every point of one.
pub proof fn lemma_fifo_eviction(capacity: nat, calls: Seq<Seq<char>>)
    ensures
        apply_add_lines(init_model(capacity), calls).lines.len() <= capacity,
        apply_add_lines(init_model(capacity), calls).lines.len() == min_nat(
            calls.len(),
            capacity,
        ),
        apply_add_lines(init_model(capacity), calls).lines =~= calls.skip(
            calls.len() - min_nat(calls.len(), capacity),
        ),
        apply_add_lines(init_model(capacity), calls).capacity == capacity,
    decreases calls.len(),
{
    if calls.len() == 0 {
        assert(apply_add_lines(init_model(capacity), calls).lines =~= Seq::<Seq<char>>::empty());
    } else {
        let prev = apply_add_lines(init_model(capacity), calls.drop_last());
        lemma_fifo_eviction(capacity, calls.drop_last());
        let kept = min_nat(calls.len(), capacity);
        assert(apply_add_lines(init_model(capacity), calls).lines =~= calls.skip(
            calls.len() - kept,
        ));
    }
}

/// An empty filter pattern keeps every line: the matched sequence is all
/// retained lines, newest first.
pub proof fn lemma_empty_pattern_matches_all(lines: Seq<Seq<char>>, pattern: Seq<char>)
    requires
        pattern.len() == 0,
    ensures
        matched(lines, pattern) =~= lines.reverse(),
    decreases lines.len(),
{
    if lines.len() == 0 {
    } else {
        lemma_empty_pattern_matches_all(lines.drop_last(), pattern);
        assert(matched(lines, pattern) =~= lines.reverse());
    }
}

/// The filtered view under an empty filter, unscrolled and with room for
/// everything, is all retained lines, newest first.
pub proof fn lemma_empty_filter_view(m: StoreModel, max_items: nat)
    requires
        m.pattern.len() == 0,
        m.scroll == 0,
        max_items >= m.lines.len(),
    ensures
        visible(m, max_items) =~= m.lines.reverse(),
{
    lemma_empty_pattern_matches_all(m.lines, m.pattern);
    if m.lines.len() == 0 {
        assert(visible(m, max_items) =~= m.lines.reverse());
    } else {
        assert(visible(m, max_items) =~= matched_of(m).subrange(0, matched_of(m).len() as int));
        assert(matched_of(m).subrange(0, matched_of(m).len() as int) =~= matched_of(m));
    }
}

/// No line matching the filter means no matched lines at all.
pub proof fn lemma_no_match_no_matched(lines: Seq<Seq<char>>, pattern: Seq<char>)
    requires
        forall|i: int| 0 <= i < lines.len() ==> !line_matches(pattern, #[trigger] lines[i]),
    ensures
        matched(lines, pattern) =~= Seq::<Seq<char>>::empty(),
    decreases lines.len(),
{
    if lines.len() == 0 {
    } else {
        assert(!line_matches(pattern, lines.last()));
        lemma_no_match_no_matched(lines.drop_last(), pattern);
    }
}

/// A filter matching none of the retained lines gives an empty view,
/// whatever the scroll offset and the viewport size.
pub proof fn lemma_unmatched_filter_empty_view(m: StoreModel, max_items: nat)
    requires
        forall|i: int| 0 <= i < m.lines.len() ==> !line_matches(m.pattern, #[trigger] m.lines[i]),
    ensures
        visible(m, max_items) =~= Seq::<Seq<char>>::empty(),
{
    lemma_no_match_no_matched(m.lines, m.pattern);
}

/// Updating the filter twice with the same valid pattern is the same as
/// updating it once: the state, and with it every filtered view, agrees.
pub proof fn lemma_update_filter_idempotent(m: StoreModel, pattern: Seq<char>, max_items: nat)
    requires
        pattern_ok(pattern),
    ensures
        update_filter_model(update_filter_model(m, pattern), pattern) == update_filter_model(
            m,
            pattern,
        ),
        visible(update_filter_model(update_filter_model(m, pattern), pattern), max_items)
            == visible(update_filter_model(m, pattern), max_items),
{
}

/// Round trip: jumping to the bottom and then reading the view is the same
/// as reading the view of the otherwise identical store with no scroll
/// offset, the state every store starts in.
pub proof fn lemma_scroll_to_bottom_round_trip(m: StoreModel, max_items: nat)
    ensures
        visible(scroll_to_bottom_model(m), max_items) == visible(
            StoreModel { scroll: 0, ..m },
            max_items,
        ),
{
}

/// Clamping: however far past the matched lines a scroll-down reaches, the
/// offset lands on the oldest matching line, and the next view starts with
/// exactly that line rather than failing or coming back empty.
pub proof fn lemma_scroll_down_clamps(m: StoreModel, n: nat, max_items: nat)
    requires
        matched_of(m).len() > 0,
        max_items >= 1,
        m.scroll + n >= matched_of(m).len(),
    ensures
        scroll_down_model(m, n).scroll == matched_of(m).len() - 1,
        visible(scroll_down_model(m, n), max_items) =~= seq![matched_of(m).last()],
{
    let after = scroll_down_model(m, n);
    assert(matched_of(after) == matched_of(m));
    assert(visible(after, max_items) =~= matched_of(m).subrange(
        matched_of(m).len() - 1,
        matched_of(m).len() as int,
    ));
}

} // verus!
