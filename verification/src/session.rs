//! The interactive session's decisions: one input event, reduced to a plain
//! value, becomes one transition of the line store and a poll result that
//! tells the surrounding loop whether the filter changed or the session is
//! over. The loop itself (terminal polling, redrawing) stays outside the
//! library and only performs what is decided here.

use vstd::prelude::*;

use crate::line_manager::LineManager;
use crate::model::scroll_down_model;
use crate::model::scroll_to_bottom_model;
use crate::model::scroll_to_top_model;
use crate::model::scroll_up_model;
use crate::model::update_filter_model;

verus! {

/// The scroll step of a plain Up/Down or mouse-wheel event.
pub const SCROLL_STEP: usize = 1;

/// The scroll step of a fast-scroll (modifier held) event.
pub const FAST_SCROLL_STEP: usize = 10;

/// One user input, reduced to what the line store needs to know: the quit
/// key, a scroll movement, a jump, or an edit that changed the filter
/// field's content to the carried text. Input that changes nothing (cursor
/// movement inside the field, an unrecognized key) is `Idle`.
pub enum SessionEvent {
    Escape,
    ScrollUp,
    ScrollDown,
    FastScrollUp,
    FastScrollDown,
    JumpToTop,
    JumpToBottom,
    FilterEdited(String),
    Idle,
}

/// What one handled event means for the session loop: whether the filter
/// was re-applied, and whether the session is over.
pub enum PollResult {
    NewFilter,
    NoNewFilter,
    Escape,
}

impl LineManager {
    /// Apply one input event to the store. Scroll keys move the window by
    /// one matched line (ten for fast scroll), jumps go to the oldest or
    /// newest matching line, and an edited filter field re-applies the
    /// filter (an invalid pattern leaving the previous one in effect, still
    /// reported as a filter event). Escape asks the loop to terminate.
    pub fn handle_event(&mut self, event: SessionEvent) -> (r: PollResult)
        requires
            old(self).wf(),
        ensures
            final(self).wf(),
            event is Escape ==> final(self)@ == old(self)@ && r is Escape,
            event is ScrollUp ==> final(self)@ == scroll_up_model(old(self)@, SCROLL_STEP as nat)
                && r is NoNewFilter,
            event is ScrollDown ==> final(self)@ == scroll_down_model(
                old(self)@,
                SCROLL_STEP as nat,
            ) && r is NoNewFilter,
            event is FastScrollUp ==> final(self)@ == scroll_up_model(
                old(self)@,
                FAST_SCROLL_STEP as nat,
            ) && r is NoNewFilter,
            event is FastScrollDown ==> final(self)@ == scroll_down_model(
                old(self)@,
                FAST_SCROLL_STEP as nat,
            ) && r is NoNewFilter,
            event is JumpToTop ==> final(self)@ == scroll_to_top_model(old(self)@) && r
                is NoNewFilter,
            event is JumpToBottom ==> final(self)@ == scroll_to_bottom_model(old(self)@) && r
                is NoNewFilter,
            event matches SessionEvent::FilterEdited(text) ==> final(self)@ == update_filter_model(
                old(self)@,
                text@,
            ) && r is NewFilter,
            event is Idle ==> final(self)@ == old(self)@ && r is NoNewFilter,
    {
        match event {
            SessionEvent::Escape => PollResult::Escape,
            SessionEvent::ScrollUp => {
                self.scroll_up(SCROLL_STEP);
                PollResult::NoNewFilter
            },
            SessionEvent::ScrollDown => {
                self.scroll_down(SCROLL_STEP);
                PollResult::NoNewFilter
            },
            SessionEvent::FastScrollUp => {
                self.scroll_up(FAST_SCROLL_STEP);
                PollResult::NoNewFilter
            },
            SessionEvent::FastScrollDown => {
                self.scroll_down(FAST_SCROLL_STEP);
                PollResult::NoNewFilter
            },
            SessionEvent::JumpToTop => {
                self.scroll_to_top();
                PollResult::NoNewFilter
            },
            SessionEvent::JumpToBottom => {
                self.scroll_to_bottom();
                PollResult::NoNewFilter
            },
            SessionEvent::FilterEdited(text) => {
                self.update_filter(text.as_str());
                PollResult::NewFilter
            },
            SessionEvent::Idle => PollResult::NoNewFilter,
        }
    }
}

} // verus!
