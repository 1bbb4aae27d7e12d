//! The mathematical model of the line store: its abstract state, the
//! transition that each operation performs on it, and the filtered view as a
//! function of that state.

use vstd::prelude::*;

use crate::pattern::line_matches;
use crate::pattern::pattern_ok;

verus! {

/// The abstract state of a line store: the retained lines in insertion order
/// (oldest first), the bound on how many are retained, the active filter
/// pattern, and the scroll offset (in matched lines, back from the newest).
pub ghost struct StoreModel {
    pub capacity: nat,
    pub lines: Seq<Seq<char>>,
    pub pattern: Seq<char>,
    pub scroll: nat,
}

pub open spec fn min_nat(a: nat, b: nat) -> nat {
    if a <= b {
        a
    } else {
        b
    }
}

/// A freshly created store: no lines, the empty pattern, no scroll offset.
pub open spec fn init_model(capacity: nat) -> StoreModel {
    StoreModel { capacity, lines: Seq::empty(), pattern: Seq::empty(), scroll: 0 }
}

/// One insertion: append the line, evicting the oldest first when the store
/// is at capacity. A store of capacity zero retains nothing.
pub open spec fn push_evict(lines: Seq<Seq<char>>, capacity: nat, line: Seq<char>) -> Seq<
    Seq<char>,
> {
    if capacity == 0 {
        lines
    } else if lines.len() >= capacity {
        lines.drop_first().push(line)
    } else {
        lines.push(line)
    }
}

pub open spec fn add_line_model(m: StoreModel, line: Seq<char>) -> StoreModel {
    StoreModel { lines: push_evict(m.lines, m.capacity, line), ..m }
}

/// The lines the filter keeps, newest first.
pub open spec fn matched(lines: Seq<Seq<char>>, pattern: Seq<char>) -> Seq<Seq<char>>
    decreases lines.len(),
{
    if lines.len() == 0 {
        Seq::empty()
    } else if line_matches(pattern, lines.last()) {
        seq![lines.last()] + matched(lines.drop_last(), pattern)
    } else {
        matched(lines.drop_last(), pattern)
    }
}

pub open spec fn matched_of(m: StoreModel) -> Seq<Seq<char>> {
    matched(m.lines, m.pattern)
}

/// The largest meaningful scroll offset: the position of the oldest matching
/// line, or zero when nothing matches.
pub open spec fn max_scroll(m: StoreModel) -> nat {
    if matched_of(m).len() == 0 {
        0
    } else {
        (matched_of(m).len() - 1) as nat
    }
}

/// Up to `max_items` matching lines, newest first, starting `scroll` matches
/// back from the newest; a stale scroll offset is clamped down to the oldest
/// matching line rather than read out of range.
pub open spec fn visible_lines(
    lines: Seq<Seq<char>>,
    pattern: Seq<char>,
    scroll: nat,
    max_items: nat,
) -> Seq<Seq<char>> {
    let mm = matched(lines, pattern);
    if mm.len() == 0 {
        Seq::empty()
    } else {
        let start = min_nat(scroll, (mm.len() - 1) as nat) as int;
        let end = if start + max_items <= mm.len() {
            start + max_items
        } else {
            mm.len() as int
        };
        mm.subrange(start, end)
    }
}

pub open spec fn visible(m: StoreModel, max_items: nat) -> Seq<Seq<char>> {
    visible_lines(m.lines, m.pattern, m.scroll, max_items)
}

/// A valid pattern replaces the active one; an invalid pattern leaves the
/// store untouched.
pub open spec fn update_filter_model(m: StoreModel, pattern: Seq<char>) -> StoreModel {
    if pattern_ok(pattern) {
        StoreModel { pattern, ..m }
    } else {
        m
    }
}

pub open spec fn scroll_up_model(m: StoreModel, n: nat) -> StoreModel {
    let target = if m.scroll >= n {
        (m.scroll - n) as nat
    } else {
        0
    };
    StoreModel { scroll: min_nat(target, max_scroll(m)), ..m }
}

pub open spec fn scroll_down_model(m: StoreModel, n: nat) -> StoreModel {
    StoreModel { scroll: min_nat(m.scroll + n, max_scroll(m)), ..m }
}

pub open spec fn scroll_to_top_model(m: StoreModel) -> StoreModel {
    StoreModel { scroll: max_scroll(m), ..m }
}

pub open spec fn scroll_to_bottom_model(m: StoreModel) -> StoreModel {
    StoreModel { scroll: 0, ..m }
}

/// Unfolds `matched` over one more line at the front of a growing prefix.
pub proof fn lemma_matched_take_step(lines: Seq<Seq<char>>, pattern: Seq<char>, i: int)
    requires
        0 <= i < lines.len(),
    ensures
        matched(lines.take(i + 1), pattern) == if line_matches(pattern, lines[i]) {
            seq![lines[i]] + matched(lines.take(i), pattern)
        } else {
            matched(lines.take(i), pattern)
        },
{
    assert(lines.take(i + 1).last() == lines[i]);
    assert(lines.take(i + 1).drop_last() =~= lines.take(i));
}

} // verus!
