//! The line store: a bounded buffer of captured output lines together with
//! the active filter and the scroll offset, every operation specified as a
//! transition on the abstract `StoreModel`.

use vstd::prelude::*;
use vstd::string::*;

use crate::model::StoreModel;
use crate::model::add_line_model;
use crate::model::init_model;
use crate::model::lemma_matched_take_step;
use crate::model::matched;
use crate::model::matched_of;
use crate::model::push_evict;
use crate::model::scroll_down_model;
use crate::model::scroll_to_bottom_model;
use crate::model::scroll_to_top_model;
use crate::model::scroll_up_model;
use crate::model::update_filter_model;
use crate::model::visible;
use crate::model::visible_lines;
use crate::highlight::Segment;
use crate::highlight::highlight_model;
use crate::highlight::segment_bytes;
use crate::pattern::compile_pattern;
use crate::pattern::find_match_spans;
use crate::pattern::pattern_ok;
use crate::pattern::regex_is_match;
use crate::pattern::regex_pattern;

verus! {

/// A bounded, eviction-aware store of captured text lines. It owns the
/// active filter (a compiled regular expression, replaced wholesale on
/// update) and the scroll offset into the matched lines.
pub struct LineManager {
    capacity: usize,
    lines: Vec<String>,
    scroll: usize,
    pattern: String,
    regex: regex::Regex,
}

impl View for LineManager {
    type V = StoreModel;

    closed spec fn view(&self) -> StoreModel {
        StoreModel {
            capacity: self.capacity as nat,
            lines: self.lines.deep_view(),
            pattern: self.pattern@,
            scroll: self.scroll as nat,
        }
    }
}

impl LineManager {
    /// Well-formedness: never more lines than the capacity allows, and the
    /// compiled regex is the one built from the stored pattern string.
    pub closed spec fn wf(&self) -> bool {
        &&& self.lines@.len() <= self.capacity
        &&& regex_pattern(self.regex) == self.pattern@
    }

    /// A fresh store with the given capacity: empty, unfiltered (the empty
    /// pattern matches everything), scrolled to the newest line.
    pub fn new(capacity: usize) -> (s: LineManager)
        ensures
            s.wf(),
            s@ == init_model(capacity as nat),
    {
        let regex = match compile_pattern("") {
            Some(re) => re,
            None => {
                proof {
                    reveal_strlit("");
                }
                unreached()
            },
        };
        let s = LineManager {
            capacity,
            lines: Vec::new(),
            scroll: 0,
            pattern: String::new(),
            regex,
        };
        proof {
            reveal_strlit("");
            assert(""@ =~= Seq::<char>::empty());
            assert(s@.lines =~= Seq::<Seq<char>>::empty());
        }
        s
    }

    /// Append one line, evicting the oldest first when the store is full.
    /// The scroll offset is untouched: it is reinterpreted against the
    /// current matched set at the next query.
    pub fn add_line(&mut self, new_line: String)
        requires
            old(self).wf(),
        ensures
            final(self).wf(),
            final(self)@ == add_line_model(old(self)@, new_line@),
    {
        if self.capacity == 0 {
            return;
        }
        if self.lines.len() >= self.capacity {
            self.lines.remove(0);
            proof {
                assert(self.lines.deep_view() =~= old(self).lines.deep_view().drop_first());
            }
        }
        self.lines.push(new_line);
        proof {
            assert(self.lines.deep_view() =~= push_evict(
                old(self).lines.deep_view(),
                old(self).capacity as nat,
                new_line@,
            ));
        }
    }

    /// The bound on retained lines, fixed at construction.
    pub fn capacity(&self) -> (c: usize)
        ensures
            c == self@.capacity,
    {
        self.capacity
    }

    /// How many lines are retained, regardless of the filter.
    pub fn count(&self) -> (n: usize)
        ensures
            n == self@.lines.len(),
    {
        self.lines.len()
    }

    /// The retained lines in insertion order, oldest first.
    pub fn lines(&self) -> (out: Vec<String>)
        ensures
            out.deep_view() == self@.lines,
    {
        let mut out: Vec<String> = Vec::new();
        let mut i: usize = 0;
        while i < self.lines.len()
            invariant
                i <= self.lines.len(),
                out.deep_view() =~= self.lines.deep_view().take(i as int),
            decreases self.lines.len() - i,
        {
            proof {
                assert(out.deep_view().len() == self.lines.deep_view().take(i as int).len());
                assert(out@.len() == i);
            }
            out.push(self.lines[i].clone());
            proof {
                assert(out.deep_view() =~= self.lines.deep_view().take(i as int + 1));
            }
            i += 1;
        }
        proof {
            assert(self.lines.deep_view().take(self.lines@.len() as int) =~= self.lines.deep_view());
        }
        out
    }

    /// How many retained lines the active filter keeps.
    fn matched_count(&self) -> (n: usize)
        requires
            self.wf(),
        ensures
            n == matched_of(self@).len(),
    {
        let ghost lv = self.lines.deep_view();
        let ghost p = self@.pattern;
        let mut n: usize = 0;
        let mut i: usize = 0;
        while i < self.lines.len()
            invariant
                self.wf(),
                i <= self.lines.len(),
                n <= i,
                lv == self.lines.deep_view(),
                p == self@.pattern,
                n == matched(lv.take(i as int), p).len(),
            decreases self.lines.len() - i,
        {
            proof {
                lemma_matched_take_step(lv, p, i as int);
            }
            if regex_is_match(&self.regex, self.lines[i].as_str()) {
                n += 1;
            }
            i += 1;
        }
        proof {
            assert(lv.take(lv.len() as int) =~= lv);
        }
        n
    }

    /// Replace the active filter with one compiled from `pattern`; an
    /// invalid pattern is reported and leaves the previous filter in effect.
    pub fn update_filter(&mut self, pattern: &str) -> (ok: bool)
        requires
            old(self).wf(),
        ensures
            final(self).wf(),
            ok == pattern_ok(pattern@),
            final(self)@ == update_filter_model(old(self)@, pattern@),
    {
        match compile_pattern(pattern) {
            Some(re) => {
                self.regex = re;
                self.pattern = pattern.to_owned();
                true
            },
            None => false,
        }
    }

    /// Move the visible window `scroll` matched lines toward the newest,
    /// clamped to the range of matched lines.
    pub fn scroll_up(&mut self, scroll: usize)
        requires
            old(self).wf(),
        ensures
            final(self).wf(),
            final(self)@ == scroll_up_model(old(self)@, scroll as nat),
    {
        let mc = self.matched_count();
        let maxs = if mc == 0 {
            0
        } else {
            mc - 1
        };
        let target = if self.scroll >= scroll {
            self.scroll - scroll
        } else {
            0
        };
        self.scroll = if target <= maxs {
            target
        } else {
            maxs
        };
    }

    /// Move the visible window `scroll` matched lines toward the oldest,
    /// clamped to the range of matched lines.
    pub fn scroll_down(&mut self, scroll: usize)
        requires
            old(self).wf(),
        ensures
            final(self).wf(),
            final(self)@ == scroll_down_model(old(self)@, scroll as nat),
    {
        let mc = self.matched_count();
        let maxs = if mc == 0 {
            0
        } else {
            mc - 1
        };
        self.scroll = if self.scroll >= maxs {
            maxs
        } else if scroll >= maxs - self.scroll {
            maxs
        } else {
            self.scroll + scroll
        };
    }

    /// Jump to the oldest matching line.
    pub fn scroll_to_top(&mut self)
        requires
            old(self).wf(),
        ensures
            final(self).wf(),
            final(self)@ == scroll_to_top_model(old(self)@),
    {
        let mc = self.matched_count();
        self.scroll = if mc == 0 {
            0
        } else {
            mc - 1
        };
    }

    /// Jump back to the newest matching line.
    pub fn scroll_to_bottom(&mut self)
        requires
            old(self).wf(),
        ensures
            final(self).wf(),
            final(self)@ == scroll_to_bottom_model(old(self)@),
    {
        self.scroll = 0;
    }

    /// Up to `items` lines matching the given regex, newest first, starting
    /// at the store's scroll offset (clamped to the matched range).
    pub fn filter(&self, filter: &regex::Regex, items: usize) -> (out: Vec<String>)
        ensures
            out.deep_view() == visible_lines(
                self@.lines,
                regex_pattern(*filter),
                self@.scroll,
                items as nat,
            ),
    {
        let ghost lv = self.lines.deep_view();
        let ghost p = regex_pattern(*filter);
        let mut all: Vec<String> = Vec::new();
        let mut i: usize = self.lines.len();
        proof {
            assert(lv.take(lv.len() as int) =~= lv);
        }
        while i > 0
            invariant
                i <= self.lines.len(),
                lv == self.lines.deep_view(),
                p == regex_pattern(*filter),
                all.deep_view() + matched(lv.take(i as int), p) =~= matched(lv, p),
            decreases i,
        {
            i -= 1;
            proof {
                assert(all.deep_view().len() == all@.len());
                lemma_matched_take_step(lv, p, i as int);
            }
            if regex_is_match(filter, self.lines[i].as_str()) {
                let ghost pre = all.deep_view();
                all.push(self.lines[i].clone());
                proof {
                    assert(all.deep_view() =~= pre + seq![lv[i as int]]);
                    assert(all.deep_view() + matched(lv.take(i as int), p) =~= matched(lv, p));
                }
            }
        }
        proof {
            assert(lv.take(0) =~= Seq::<Seq<char>>::empty());
            assert(all.deep_view() + matched(lv.take(0), p) =~= all.deep_view());
            assert(all.deep_view() =~= matched(lv, p));
        }
        let mc = all.len();
        if mc == 0 {
            let out: Vec<String> = Vec::new();
            proof {
                assert(out.deep_view() =~= visible_lines(lv, p, self@.scroll, items as nat));
            }
            return out;
        }
        let start = if self.scroll < mc {
            self.scroll
        } else {
            mc - 1
        };
        let end = if items < mc - start {
            start + items
        } else {
            mc
        };
        let mut out: Vec<String> = Vec::new();
        let mut j: usize = start;
        while j < end
            invariant
                start <= j <= end,
                end <= all@.len(),
                out.deep_view() =~= all.deep_view().subrange(start as int, j as int),
            decreases end - j,
        {
            proof {
                assert(out.deep_view().len() == out@.len());
                assert(all.deep_view().subrange(start as int, j as int).len() == j - start);
            }
            out.push(all[j].clone());
            proof {
                assert(out.deep_view() =~= all.deep_view().subrange(start as int, j as int + 1));
            }
            j += 1;
        }
        proof {
            assert(out.deep_view() =~= visible_lines(lv, p, self@.scroll, items as nat));
        }
        out
    }

    /// Split one line into plain and highlighted segments along the
    /// non-overlapping matches of the active filter, left to right.
    pub fn highlight_line(&self, line: &str) -> (segs: Vec<Segment>)
        requires
            self.wf(),
        ensures
            segs.deep_view() == highlight_model(self@.pattern, line@),
    {
        let bytes = line.as_bytes_vec();
        if self.pattern.as_str().is_empty() {
            let mut segs: Vec<Segment> = Vec::new();
            segs.push(Segment { text: bytes, highlighted: false });
            proof {
                assert(segs.deep_view() =~= highlight_model(self@.pattern, line@));
            }
            segs
        } else {
            let spans = find_match_spans(&self.regex, line);
            segment_bytes(&bytes, &spans)
        }
    }

    /// The current filtered view: up to `max_items` lines matching the
    /// active filter, newest first, starting at the scroll offset.
    pub fn filtered_view(&self, max_items: usize) -> (out: Vec<String>)
        requires
            self.wf(),
        ensures
            out.deep_view() == visible(self@, max_items as nat),
    {
        self.filter(&self.regex, max_items)
    }
}

} // verus!
