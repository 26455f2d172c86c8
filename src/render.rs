use vstd::prelude::*;
use crate::display::{clock_text, fill_width, format_duration, progress_fill};
use crate::session::{LoadState, Session, SessionView};

verus! {

/// One line of the track-list window.
#[derive(Clone, Copy, Debug, PartialEq, Eq)]
pub struct Row {
    pub index: usize,
    pub is_current: bool,
    pub is_selected: bool,
}

/// Everything a redraw shows, computed from the session alone.
#[derive(Clone, Debug)]
pub struct Frame {
    pub playing: bool,
    pub volume_percent: u8,
    pub load: LoadState,
    pub current: usize,
    pub elapsed_ms: u64,
    pub duration_ms: u64,
    /// Elapsed time as `MM:SS`.
    pub elapsed_text: String,
    /// Nominal length of the current track as `MM:SS`.
    pub duration_text: String,
    pub bar_width: usize,
    /// Filled cells of the progress bar.
    pub bar_filled: usize,
    /// The visible part of the track list, top to bottom.
    pub rows: Vec<Row>,
}

/// One past the last row shown: the window's height below its first row, cut at the list's end.
pub open spec fn window_end(v: SessionView) -> nat {
    if v.viewport_start + v.visible_rows <= v.len {
        v.viewport_start + v.visible_rows
    } else {
        v.len
    }
}

pub open spec fn row_for(v: SessionView, index: nat) -> Row {
    Row { index: index as usize, is_current: index == v.current, is_selected: index == v.selected }
}

impl Session {
    /// The picture of the session at clock reading `now`, with a progress bar
    /// `bar_width` cells wide.
    pub fn frame(&self, now: u64, bar_width: usize) -> (f: Frame)
        requires
            self.wf(),
        ensures
            f.playing == self.playing,
            f.volume_percent == self.volume * 10,
            f.load == self.load,
            f.current == self.current,
            f.elapsed_ms == self@.elapsed_at(now),
            f.duration_ms == self.songs@[self.current as int].duration_ms,
            f.elapsed_text@ == clock_text(f.elapsed_ms as nat),
            f.duration_text@ == clock_text(f.duration_ms as nat),
            f.bar_width == bar_width,
            f.bar_filled == fill_width(f.elapsed_ms as nat, f.duration_ms as nat, bar_width as nat),
            f.rows@.len() == window_end(self@) - self.viewport_start,
            forall|k: int| 0 <= k < f.rows@.len() ==> f.rows@[k] == row_for(self@, (self.viewport_start + k) as nat),
    {
        let elapsed_ms = self.clock.elapsed(now);
        let duration_ms = self.songs[self.current].duration_ms;
        let n = self.songs.len();
        let start = self.viewport_start;
        let end: usize = if self.visible_rows <= n - start { start + self.visible_rows } else { n };
        let mut rows: Vec<Row> = Vec::new();
        let mut i: usize = start;
        while i < end
            invariant
                start <= i <= end,
                end <= n,
                n == self.songs@.len(),
                start == self.viewport_start,
                end == window_end(self@),
                rows@.len() == i - start,
                forall|k: int| 0 <= k < rows@.len() ==> rows@[k] == row_for(self@, (start + k) as nat),
            decreases end - i,
        {
            rows.push(Row { index: i, is_current: i == self.current, is_selected: i == self.selected });
            i = i + 1;
        }
        Frame {
            playing: self.playing,
            volume_percent: self.volume * 10,
            load: self.load,
            current: self.current,
            elapsed_ms,
            duration_ms,
            elapsed_text: format_duration(elapsed_ms),
            duration_text: format_duration(duration_ms),
            bar_width,
            bar_filled: progress_fill(elapsed_ms, duration_ms, bar_width),
            rows,
        }
    }
}

} // verus!
