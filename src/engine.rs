use vstd::prelude::*;

verus! {

/// Observable state of the local decode/render engine.
#[derive(Clone, Copy, Debug, PartialEq, Eq, Structural)]
pub enum EngineState {
    Idle,
    Buffering,
    Playing,
    Paused,
    Finished,
    Error,
}

impl EngineState {
    /// `Finished` and `Error` accept no further transitions.
    pub open spec fn is_terminal(self) -> bool {
        self == EngineState::Finished || self == EngineState::Error
    }

    pub fn terminal(&self) -> (r: bool)
        ensures
            r == self.is_terminal(),
    {
        matches!(*self, EngineState::Finished | EngineState::Error)
    }
}

/// Why the engine is held while it buffers: `Governor` resumes by itself once
/// the buffer refills, `User` stays paused because the listener asked for it.
#[derive(Clone, Copy, Debug, PartialEq, Eq, Structural)]
pub enum PauseReason {
    User,
    Governor,
}

/// A transport command for the real pipeline.
#[derive(Clone, Copy, Debug, PartialEq, Eq, Structural)]
pub enum EngineCommand {
    Play,
    Pause,
    /// Seek to an absolute position, in whole seconds.
    Seek(u64),
}

/// State machine of the media engine. Positions are whole seconds.
#[derive(Clone, Copy, Debug, PartialEq, Eq, Structural)]
pub struct MediaEngine {
    pub state: EngineState,
    /// Meaningful while `Buffering`: whose intent holds once the buffer refills.
    pub hold: PauseReason,
    /// Initial seek still to apply on the first ready signal.
    pub pending_seek: Option<u64>,
    /// Last position the engine reported.
    pub last_position: u64,
}

/// Buffer level at or above which the buffer counts as full.
pub const BUFFER_FULL_PERCENT: u32 = 100;

impl MediaEngine {
    /// The engine before anything is loaded.
    pub open spec fn idle_spec() -> MediaEngine {
        MediaEngine {
            state: EngineState::Idle,
            hold: PauseReason::Governor,
            pending_seek: None,
            last_position: 0,
        }
    }

    /// A fresh engine, in `Idle`.
    pub fn new() -> (r: MediaEngine)
        ensures
            r == MediaEngine::idle_spec(),
    {
        MediaEngine {
            state: EngineState::Idle,
            hold: PauseReason::Governor,
            pending_seek: None,
            last_position: 0,
        }
    }

    /// State after `initialize`.
    pub open spec fn initialize_spec(self, seek: Option<u64>) -> MediaEngine {
        if self.state == EngineState::Idle {
            MediaEngine {
                state: EngineState::Buffering,
                hold: PauseReason::Governor,
                pending_seek: seek,
                last_position: match seek {
                    Some(p) => p,
                    None => 0,
                },
            }
        } else {
            self
        }
    }

    /// `Idle --initialize--> Buffering`; the seek target waits for the first
    /// ready signal. Any other state ignores the call.
    pub fn initialize(&mut self, seek: Option<u64>)
        ensures
            *final(self) == old(self).initialize_spec(seek),
    {
        if self.state == EngineState::Idle {
            self.state = EngineState::Buffering;
            self.hold = PauseReason::Governor;
            self.pending_seek = seek;
            self.last_position = match seek {
                Some(p) => p,
                None => 0,
            };
        }
    }

    /// State and command after the ready signal.
    pub open spec fn ready_spec(self) -> (MediaEngine, Option<EngineCommand>) {
        match self.pending_seek {
            Some(p) => (
                MediaEngine { pending_seek: None, last_position: p, ..self },
                Some(EngineCommand::Seek(p)),
            ),
            None => (self, None),
        }
    }

    /// The engine signalled that it is ready: the initial seek, if any, is
    /// issued now and never again.
    pub fn on_ready(&mut self) -> (r: Option<EngineCommand>)
        ensures
            (*final(self), r) == old(self).ready_spec(),
    {
        match self.pending_seek {
            Some(p) => {
                self.pending_seek = None;
                self.last_position = p;
                Some(EngineCommand::Seek(p))
            },
            None => None,
        }
    }

    /// State and command after the listener's play/pause.
    pub open spec fn toggle_spec(self) -> (MediaEngine, Option<EngineCommand>) {
        match self.state {
            EngineState::Playing => (
                MediaEngine { state: EngineState::Paused, hold: PauseReason::User, ..self },
                Some(EngineCommand::Pause),
            ),
            EngineState::Paused => (
                MediaEngine { state: EngineState::Playing, hold: PauseReason::Governor, ..self },
                Some(EngineCommand::Play),
            ),
            EngineState::Buffering => (
                MediaEngine {
                    hold: if self.hold == PauseReason::User {
                        PauseReason::Governor
                    } else {
                        PauseReason::User
                    },
                    ..self
                },
                None,
            ),
            _ => (self, None),
        }
    }

    /// The listener's play/pause. While buffering no command reaches the
    /// engine, but the listener's intent is recorded for when it refills.
    pub fn toggle_play_pause(&mut self) -> (r: Option<EngineCommand>)
        ensures
            (*final(self), r) == old(self).toggle_spec(),
    {
        match self.state {
            EngineState::Playing => {
                self.state = EngineState::Paused;
                self.hold = PauseReason::User;
                Some(EngineCommand::Pause)
            },
            EngineState::Paused => {
                self.state = EngineState::Playing;
                self.hold = PauseReason::Governor;
                Some(EngineCommand::Play)
            },
            EngineState::Buffering => {
                self.hold = match self.hold {
                    PauseReason::User => PauseReason::Governor,
                    PauseReason::Governor => PauseReason::User,
                };
                None
            },
            _ => None,
        }
    }

    /// State and command after a seek to `to`.
    pub open spec fn seek_spec(self, to: u64) -> (MediaEngine, Option<EngineCommand>) {
        if self.state == EngineState::Idle {
            (self, None)
        } else {
            (MediaEngine { last_position: to, ..self }, Some(EngineCommand::Seek(to)))
        }
    }

    /// Seek to an absolute position; ignored while `Idle`.
    pub fn seek(&mut self, to: u64) -> (r: Option<EngineCommand>)
        ensures
            (*final(self), r) == old(self).seek_spec(to),
    {
        if self.state == EngineState::Idle {
            None
        } else {
            self.last_position = to;
            Some(EngineCommand::Seek(to))
        }
    }

    /// The best-effort position given what the engine reports now.
    pub open spec fn position_spec(self, reported: Option<u64>) -> u64 {
        match reported {
            Some(p) => p,
            None => self.last_position,
        }
    }

    /// Best-effort position: what the engine reports now, else the last
    /// known sample. A report is remembered.
    pub fn position(&mut self, reported: Option<u64>) -> (r: u64)
        ensures
            r == old(self).position_spec(reported),
            *final(self) == (MediaEngine { last_position: r, ..*old(self) }),
    {
        if let Some(p) = reported {
            self.last_position = p;
        }
        self.last_position
    }

    /// State after the stream ends in the terminal `state`.
    pub open spec fn end_spec(self, state: EngineState) -> MediaEngine {
        if self.state.is_terminal() || self.state == EngineState::Idle {
            self
        } else {
            MediaEngine { state, pending_seek: None, ..self }
        }
    }

    /// `* --end_of_stream--> Finished`. Terminal states and `Idle` stay put.
    pub fn on_end_of_stream(&mut self)
        ensures
            *final(self) == old(self).end_spec(EngineState::Finished),
    {
        if !(self.state.terminal() || self.state == EngineState::Idle) {
            self.state = EngineState::Finished;
            self.pending_seek = None;
        }
    }

    /// `* --fatal_engine_error--> Error`. Terminal states and `Idle` stay put.
    pub fn on_fault(&mut self)
        ensures
            *final(self) == old(self).end_spec(EngineState::Error),
    {
        if !(self.state.terminal() || self.state == EngineState::Idle) {
            self.state = EngineState::Error;
            self.pending_seek = None;
        }
    }
}

} // verus!
