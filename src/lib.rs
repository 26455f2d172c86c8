//! Core of a terminal music player: elapsed-time accounting, the scrolling
//! track-list window, key dispatch, the playback session state machine and the
//! per-frame display model.

mod display;
mod input;
mod render;
mod session;
mod tracker;
mod track;
mod viewport;

pub use display::{format_duration, progress_fill};
pub use input::{dispatch_key, Command, Key};
pub use render::{Frame, Row};
pub use session::{Action, LoadState, Session, SessionView};
pub use tracker::ElapsedTracker;
pub use track::{Song, DEFAULT_DURATION_MS};
pub use viewport::scroll_viewport;
