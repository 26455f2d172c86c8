use vstd::prelude::*;
use crate::input::Command;
use crate::track::Song;
use crate::tracker::ElapsedTracker;
use crate::viewport::{follow, lemma_follow_keeps_selection_visible, scroll_viewport, window_ok};

verus! {

/// Loudest volume step; volume goes from 0 to this in tenths.
pub const MAX_VOLUME: u8 = 10;

/// Volume step a session starts with (one half).
pub const START_VOLUME: u8 = 5;

/// Where the session stands with respect to loading tracks into the engine.
#[derive(Clone, Copy, Debug, PartialEq, Eq)]
pub enum LoadState {
    /// Nothing has been loaded yet.
    Idle,
    /// The current track was handed to the engine.
    Ready,
    /// The current track could not be loaded; the next one is tried on the next tick.
    Failed,
    /// Every track failed in a row; playback is paused until the user acts.
    Exhausted,
}

/// What the audio engine must do after a session step.
#[derive(Clone, Copy, Debug, PartialEq, Eq)]
pub enum Action {
    Nothing,
    /// Stop, then enqueue and play the track at this index; report the outcome
    /// through `load_finished`.
    Load(usize),
    Play,
    Pause,
    /// Set the output volume to this many tenths of full scale.
    SetVolume(u8),
    /// Stop playback and leave the session.
    Exit,
}

/// The mathematical state of a session.
pub struct SessionView {
    pub len: nat,
    pub current: nat,
    pub selected: nat,
    pub viewport_start: nat,
    pub visible_rows: nat,
    pub playing: bool,
    pub volume: nat,
    pub clock: ElapsedTracker,
    pub load: LoadState,
    pub failures: nat,
}

impl SessionView {
    pub open spec fn wf(self) -> bool {
        &&& self.len > 0
        &&& self.current < self.len
        &&& self.selected < self.len
        &&& window_ok(self.selected as int, self.len as int, self.visible_rows as int, self.viewport_start as int)
        &&& self.volume <= MAX_VOLUME
        &&& self.playing == self.clock.running()
        &&& self.failures <= self.len
    }

    /// Index after the current track, wrapping to the first.
    pub open spec fn next_index(self) -> nat {
        (self.current + 1) % self.len
    }

    /// Elapsed time in the current track at `now`.
    pub open spec fn elapsed_at(self, now: u64) -> u64 {
        self.clock.elapsed_at(now)
    }

    /// The selection moved to `to`, with the window following it.
    pub open spec fn select(self, to: nat) -> SessionView {
        SessionView {
            selected: to,
            viewport_start: follow(to as int, self.len as int, self.visible_rows as int, self.viewport_start as int) as nat,
            ..self
        }
    }

    /// Track `index` loaded and playing from its start at `now`; with `select`
    /// the selection moves to it.
    pub open spec fn start_track(self, index: nat, now: u64, select: bool, failures: nat) -> SessionView {
        let s = if select { self.select(index) } else { self };
        SessionView {
            current: index,
            playing: true,
            clock: ElapsedTracker::restarted(now, true),
            load: LoadState::Ready,
            failures: failures,
            ..s
        }
    }

    pub open spec fn moved_up(self) -> SessionView {
        if self.selected > 0 { self.select((self.selected - 1) as nat) } else { self }
    }

    pub open spec fn moved_down(self) -> SessionView {
        if self.selected + 1 < self.len { self.select(self.selected + 1) } else { self }
    }

    pub open spec fn toggled(self, now: u64) -> SessionView {
        if self.playing {
            SessionView { playing: false, clock: self.clock.paused(now), ..self }
        } else {
            SessionView { playing: true, clock: self.clock.played(now), ..self }
        }
    }

    pub open spec fn louder(self) -> SessionView {
        if self.volume < MAX_VOLUME { SessionView { volume: self.volume + 1, ..self } } else { self }
    }

    pub open spec fn quieter(self) -> SessionView {
        if self.volume > 0 { SessionView { volume: (self.volume - 1) as nat, ..self } } else { self }
    }

    /// The state after command `cmd` at clock reading `now`.
    pub open spec fn after(self, cmd: Command, now: u64) -> SessionView {
        match cmd {
            Command::MoveSelectionUp => self.moved_up(),
            Command::MoveSelectionDown => self.moved_down(),
            Command::TogglePlayPause => self.toggled(now),
            Command::VolumeUp => self.louder(),
            Command::VolumeDown => self.quieter(),
            Command::ActivateSelection => self.start_track(self.selected, now, false, 0),
            Command::SkipNext => self.start_track(self.next_index(), now, true, 0),
            Command::Quit => self,
        }
    }

    /// What the engine is told to do on command `cmd`.
    pub open spec fn reply(self, cmd: Command) -> Action {
        match cmd {
            Command::MoveSelectionUp => Action::Nothing,
            Command::MoveSelectionDown => Action::Nothing,
            Command::TogglePlayPause => if self.playing { Action::Pause } else { Action::Play },
            Command::VolumeUp => if self.volume < MAX_VOLUME {
                Action::SetVolume((self.volume + 1) as u8)
            } else {
                Action::Nothing
            },
            Command::VolumeDown => if self.volume > 0 {
                Action::SetVolume((self.volume - 1) as u8)
            } else {
                Action::Nothing
            },
            Command::ActivateSelection => Action::Load(self.selected as usize),
            Command::SkipNext => Action::Load(self.next_index() as usize),
            Command::Quit => Action::Exit,
        }
    }

    /// The state after a run of selection moves, `true` meaning up and `false` down.
    pub open spec fn after_moves(self, ups: Seq<bool>) -> SessionView
        decreases ups.len(),
    {
        if ups.len() == 0 {
            self
        } else {
            let next = if ups[0] { self.moved_up() } else { self.moved_down() };
            next.after_moves(ups.subrange(1, ups.len() as int))
        }
    }

    /// The state once the list window is `rows` rows high.
    pub open spec fn resized(self, rows: nat) -> SessionView {
        SessionView {
            visible_rows: rows,
            viewport_start: follow(self.selected as int, self.len as int, rows as int, self.viewport_start as int) as nat,
            ..self
        }
    }

    /// The state after the start-of-cycle check, given whether the engine has
    /// run out of queued audio.
    pub open spec fn ticked(self, now: u64, drained: bool) -> SessionView {
        match self.load {
            LoadState::Idle => self.start_track(self.current, now, false, 0),
            LoadState::Failed => self.start_track(self.next_index(), now, true, self.failures),
            LoadState::Ready => if drained && self.playing {
                self.start_track(self.next_index(), now, true, 0)
            } else {
                self
            },
            LoadState::Exhausted => self,
        }
    }

    /// What the engine is told to do by the start-of-cycle check.
    pub open spec fn tick_reply(self, drained: bool) -> Action {
        match self.load {
            LoadState::Idle => Action::Load(self.current as usize),
            LoadState::Failed => Action::Load(self.next_index() as usize),
            LoadState::Ready => if drained && self.playing {
                Action::Load(self.next_index() as usize)
            } else {
                Action::Nothing
            },
            LoadState::Exhausted => Action::Nothing,
        }
    }

    /// The state once the engine reported whether the last load succeeded.
    pub open spec fn load_reported(self, ok: bool, now: u64) -> SessionView {
        if ok {
            SessionView { load: LoadState::Ready, failures: 0, ..self }
        } else {
            SessionView {
                playing: false,
                clock: ElapsedTracker::restarted(now, false),
                load: if self.failures + 1 >= self.len { LoadState::Exhausted } else { LoadState::Failed },
                failures: if self.failures + 1 >= self.len { self.len } else { self.failures + 1 },
                ..self
            }
        }
    }
}

/// A playback session over a fixed, non-empty list of tracks.
pub struct Session {
    pub songs: Vec<Song>,
    pub current: usize,
    pub selected: usize,
    pub viewport_start: usize,
    pub visible_rows: usize,
    pub playing: bool,
    /// Output volume in tenths of full scale.
    pub volume: u8,
    pub clock: ElapsedTracker,
    pub load: LoadState,
    /// Loads that failed in a row since the last success or user request.
    pub failures: usize,
}

impl View for Session {
    type V = SessionView;

    open spec fn view(&self) -> SessionView {
        SessionView {
            len: self.songs@.len(),
            current: self.current as nat,
            selected: self.selected as nat,
            viewport_start: self.viewport_start as nat,
            visible_rows: self.visible_rows as nat,
            playing: self.playing,
            volume: self.volume as nat,
            clock: self.clock,
            load: self.load,
            failures: self.failures as nat,
        }
    }
}

impl Session {
    pub open spec fn wf(&self) -> bool {
        self@.wf()
    }

    /// A session over `songs` showing `visible_rows` list rows, before anything
    /// is loaded; `None` when there is nothing to play.
    pub fn new(songs: Vec<Song>, visible_rows: usize) -> (r: Option<Session>)
        ensures
            songs@.len() == 0 <==> r is None,
            r matches Some(s) ==> {
                &&& s.wf()
                &&& s.songs@ == songs@
                &&& s@ == (SessionView {
                    len: songs@.len(),
                    current: 0,
                    selected: 0,
                    viewport_start: 0,
                    visible_rows: visible_rows as nat,
                    playing: false,
                    volume: START_VOLUME as nat,
                    clock: ElapsedTracker { accumulated_ms: 0, run_start: None },
                    load: LoadState::Idle,
                    failures: 0,
                })
            },
    {
        if songs.len() == 0 {
            None
        } else {
            Some(Session {
                songs,
                current: 0,
                selected: 0,
                viewport_start: 0,
                visible_rows,
                playing: false,
                volume: START_VOLUME,
                clock: ElapsedTracker::new(),
                load: LoadState::Idle,
                failures: 0,
            })
        }
    }

    fn select(&mut self, to: usize)
        requires
            old(self).wf(),
            to < old(self).songs@.len(),
        ensures
            final(self).wf(),
            final(self).songs@ == old(self).songs@,
            final(self)@ == old(self)@.select(to as nat),
    {
        self.viewport_start = scroll_viewport(to, self.songs.len(), self.visible_rows, self.viewport_start);
        self.selected = to;
        proof {
            lemma_follow_keeps_selection_visible(
                to as int, self.songs@.len() as int, self.visible_rows as int, old(self).viewport_start as int);
        }
    }

    fn start_track(&mut self, index: usize, now: u64, select: bool, failures: usize)
        requires
            old(self).wf(),
            index < old(self).songs@.len(),
            failures <= old(self).songs@.len(),
        ensures
            final(self).wf(),
            final(self).songs@ == old(self).songs@,
            final(self)@ == old(self)@.start_track(index as nat, now, select, failures as nat),
    {
        if select {
            self.select(index);
        }
        self.current = index;
        self.playing = true;
        self.clock.on_track_change(now, true);
        self.load = LoadState::Ready;
        self.failures = failures;
    }

    fn next_index(&self) -> (r: usize)
        requires
            self.wf(),
        ensures
            r == self@.next_index(),
    {
        let n = self.songs.len();
        if self.current + 1 < n {
            proof {
                let (c, m) = (self.current + 1, n as int);
                assert(c % m == c) by (nonlinear_arith) requires 0 <= c < m {}
            }
            self.current + 1
        } else {
            proof {
                let (c, m) = (self.current + 1, n as int);
                assert(c % m == 0) by (nonlinear_arith) requires c == m, m > 0 {}
            }
            0
        }
    }

    /// Applies a user command at clock reading `now`; returns what the engine must do.
    pub fn handle(&mut self, cmd: Command, now: u64) -> (r: Action)
        requires
            old(self).wf(),
        ensures
            final(self).wf(),
            final(self).songs@ == old(self).songs@,
            final(self)@ == old(self)@.after(cmd, now),
            r == old(self)@.reply(cmd),
    {
        match cmd {
            Command::MoveSelectionUp => {
                if self.selected > 0 {
                    self.select(self.selected - 1);
                }
                Action::Nothing
            },
            Command::MoveSelectionDown => {
                let n = self.songs.len();
                if self.selected + 1 < n {
                    self.select(self.selected + 1);
                }
                Action::Nothing
            },
            Command::TogglePlayPause => {
                if self.playing {
                    self.playing = false;
                    self.clock.on_pause(now);
                    Action::Pause
                } else {
                    self.playing = true;
                    self.clock.on_play(now);
                    Action::Play
                }
            },
            Command::VolumeUp => {
                if self.volume < MAX_VOLUME {
                    self.volume = self.volume + 1;
                    Action::SetVolume(self.volume)
                } else {
                    Action::Nothing
                }
            },
            Command::VolumeDown => {
                if self.volume > 0 {
                    self.volume = self.volume - 1;
                    Action::SetVolume(self.volume)
                } else {
                    Action::Nothing
                }
            },
            Command::ActivateSelection => {
                let target = self.selected;
                self.start_track(target, now, false, 0);
                Action::Load(target)
            },
            Command::SkipNext => {
                let target = self.next_index();
                self.start_track(target, now, true, 0);
                Action::Load(target)
            },
            Command::Quit => Action::Exit,
        }
    }

    /// Start-of-cycle check at `now`: loads the first track, retries after a
    /// failed load, or advances when the engine has drained while playing.
    pub fn tick(&mut self, now: u64, drained: bool) -> (r: Action)
        requires
            old(self).wf(),
        ensures
            final(self).wf(),
            final(self).songs@ == old(self).songs@,
            final(self)@ == old(self)@.ticked(now, drained),
            r == old(self)@.tick_reply(drained),
    {
        match self.load {
            LoadState::Idle => {
                let target = self.current;
                self.start_track(target, now, false, 0);
                Action::Load(target)
            },
            LoadState::Failed => {
                let target = self.next_index();
                let f = self.failures;
                self.start_track(target, now, true, f);
                Action::Load(target)
            },
            LoadState::Ready => {
                if drained && self.playing {
                    let target = self.next_index();
                    self.start_track(target, now, true, 0);
                    Action::Load(target)
                } else {
                    Action::Nothing
                }
            },
            LoadState::Exhausted => Action::Nothing,
        }
    }

    /// Records whether the engine accepted the track of the last `Load` action.
    pub fn load_finished(&mut self, ok: bool, now: u64)
        requires
            old(self).wf(),
        ensures
            final(self).wf(),
            final(self).songs@ == old(self).songs@,
            final(self)@ == old(self)@.load_reported(ok, now),
    {
        if ok {
            self.load = LoadState::Ready;
            self.failures = 0;
        } else {
            self.playing = false;
            self.clock.on_track_change(now, false);
            if self.failures >= self.songs.len() - 1 {
                self.load = LoadState::Exhausted;
                self.failures = self.songs.len();
            } else {
                self.load = LoadState::Failed;
                self.failures = self.failures + 1;
            }
        }
    }

    /// Adapts the list window to a new height of `rows` rows, scrolling as
    /// little as needed to keep the selection in view.
    pub fn set_visible_rows(&mut self, rows: usize)
        requires
            old(self).wf(),
        ensures
            final(self).wf(),
            final(self).songs@ == old(self).songs@,
            final(self)@ == old(self)@.resized(rows as nat),
    {
        self.viewport_start = scroll_viewport(self.selected, self.songs.len(), rows, self.viewport_start);
        self.visible_rows = rows;
        proof {
            lemma_follow_keeps_selection_visible(
                self.selected as int, self.songs@.len() as int, rows as int, old(self).viewport_start as int);
        }
    }

    /// Elapsed time in the current track at `now`.
    pub fn elapsed(&self, now: u64) -> (r: u64)
        ensures
            r == self@.elapsed_at(now),
    {
        self.clock.elapsed(now)
    }
}

/// Whatever run of selection moves is applied to a well-formed session, the
/// selection stays within the list and inside the visible window, and the
/// window never scrolls past the end of the list.
pub proof fn lemma_moves_keep_selection_visible(v: SessionView, ups: Seq<bool>)
    requires
        v.wf(),
    ensures
        v.after_moves(ups).wf(),
        v.after_moves(ups).visible_rows > 0 ==> {
            let w = v.after_moves(ups);
            w.viewport_start <= w.selected < w.viewport_start + w.visible_rows
        },
    decreases ups.len(),
{
    if ups.len() > 0 {
        let next = if ups[0] { v.moved_up() } else { v.moved_down() };
        if v.selected > 0 {
            lemma_follow_keeps_selection_visible(
                v.selected - 1, v.len as int, v.visible_rows as int, v.viewport_start as int);
        }
        if v.selected + 1 < v.len {
            lemma_follow_keeps_selection_visible(
                (v.selected + 1) as int, v.len as int, v.visible_rows as int, v.viewport_start as int);
        }
        lemma_moves_keep_selection_visible(next, ups.subrange(1, ups.len() as int));
    }
}

/// Toggling play/pause twice at the same instant restores the playing flag
/// and leaves the elapsed time as it was.
pub proof fn lemma_toggle_twice(v: SessionView, now: u64)
    requires
        v.wf(),
    ensures
        v.toggled(now).toggled(now).playing == v.playing,
        v.toggled(now).toggled(now).elapsed_at(now) == v.elapsed_at(now),
        v.toggled(now).toggled(now).wf(),
{
}

/// Moving up from the first row, down from the last, raising the volume at
/// its top or lowering it at zero changes nothing and tells the engine nothing.
pub proof fn lemma_boundary_commands_do_nothing(v: SessionView, now: u64)
    requires
        v.wf(),
    ensures
        v.selected == 0 ==> v.after(Command::MoveSelectionUp, now) == v
            && v.reply(Command::MoveSelectionUp) == Action::Nothing,
        v.selected + 1 == v.len ==> v.after(Command::MoveSelectionDown, now) == v
            && v.reply(Command::MoveSelectionDown) == Action::Nothing,
        v.volume == MAX_VOLUME ==> v.after(Command::VolumeUp, now) == v
            && v.reply(Command::VolumeUp) == Action::Nothing,
        v.volume == 0 ==> v.after(Command::VolumeDown, now) == v
            && v.reply(Command::VolumeDown) == Action::Nothing,
{
}

/// When the engine drains while a loaded track plays, the next track (wrapping
/// to the first after the last) starts from zero and the selection follows it.
pub proof fn lemma_drain_advances(v: SessionView, now: u64)
    requires
        v.wf(),
        v.load == LoadState::Ready,
        v.playing,
    ensures
        v.ticked(now, true).current == (v.current + 1) % v.len,
        v.ticked(now, true).selected == v.ticked(now, true).current,
        v.ticked(now, true).playing,
        v.ticked(now, true).elapsed_at(now) == 0,
        v.tick_reply(true) == Action::Load(((v.current + 1) % v.len) as usize),
{
}

} // verus!
