//! An interactive viewer's core: a bounded, eviction-aware store of captured
//! output lines that can be live-filtered with a regular expression and
//! scrolled, together with the pure helpers that the surrounding terminal
//! session needs (match highlighting, event handling, display strings).

pub mod highlight;
pub mod laws;
pub mod line_manager;
pub mod model;
pub mod pattern;
pub mod session;
pub mod text;

pub use highlight::Segment;
pub use line_manager::LineManager;
pub use session::PollResult;
pub use session::SessionEvent;
