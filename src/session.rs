use vstd::prelude::*;
use crate::engine::{EngineCommand, EngineState, MediaEngine};
use crate::error::ApiError;

verus! {

/// The one active playback session. Times are whole seconds.
#[derive(Clone, Debug)]
pub struct PlaybackSession {
    /// Opaque id issued by the remote service.
    pub session_id: String,
    pub item_id: String,
    /// Resolved location of the audio stream.
    pub stream_url: String,
    /// Total length; 0 when unknown.
    pub duration: u64,
    /// Last known playback position.
    pub current_time: u64,
}

pub struct SessionView {
    pub session_id: Seq<char>,
    pub item_id: Seq<char>,
    pub stream_url: Seq<char>,
    pub duration: u64,
    pub current_time: u64,
}

impl View for PlaybackSession {
    type V = SessionView;

    open spec fn view(&self) -> SessionView {
        SessionView {
            session_id: self.session_id@,
            item_id: self.item_id@,
            stream_url: self.stream_url@,
            duration: self.duration,
            current_time: self.current_time,
        }
    }
}

/// What the remote service answers when a session is opened.
#[derive(Clone, Debug)]
pub struct OpenedSession {
    pub session_id: String,
    pub display_title: Option<String>,
    pub display_author: Option<String>,
    pub duration: u64,
    pub current_time: u64,
    /// Resolved location of the first audio track, if the item has one.
    pub audio_track_url: Option<String>,
}

pub struct OpenedView {
    pub session_id: Seq<char>,
    pub duration: u64,
    pub current_time: u64,
    pub audio_track_url: Option<Seq<char>>,
}

impl View for OpenedSession {
    type V = OpenedView;

    open spec fn view(&self) -> OpenedView {
        OpenedView {
            session_id: self.session_id@,
            duration: self.duration,
            current_time: self.current_time,
            audio_track_url: match self.audio_track_url {
                Some(u) => Some(u@),
                None => None,
            },
        }
    }
}

/// What a request to open a session brought back, as far as state goes.
pub open spec fn grant_of(result: Result<OpenedSession, ApiError>) -> Option<OpenedView> {
    match result {
        Ok(o) => Some(o@),
        Err(_) => None,
    }
}

/// A progress report for the remote service: a sync, or the close of a session.
#[derive(Clone, Debug)]
pub struct RemoteSync {
    pub session_id: String,
    pub current_time: u64,
    pub duration: u64,
}

pub struct SyncView {
    pub session_id: Seq<char>,
    pub current_time: u64,
    pub duration: u64,
}

impl View for RemoteSync {
    type V = SyncView;

    open spec fn view(&self) -> SyncView {
        SyncView {
            session_id: self.session_id@,
            current_time: self.current_time,
            duration: self.duration,
        }
    }
}

/// The report that carries a session's last known progress.
pub open spec fn report_of(s: SessionView) -> SyncView {
    SyncView { session_id: s.session_id, current_time: s.current_time, duration: s.duration }
}

/// What tearing a session down asks of the surroundings.
#[derive(Debug)]
pub struct Teardown {
    /// Cancel the progress sampler.
    pub cancel_sampler: bool,
    /// Cancel the sync scheduler.
    pub cancel_sync: bool,
    /// Best-effort close of the remote session, fired and never awaited.
    pub close: Option<RemoteSync>,
    /// Shut the local pipeline down.
    pub shutdown_engine: bool,
}

/// A request to open a session, to be made off the event loop. Its result
/// comes back through `SessionController::on_open_result` with `ticket`.
#[derive(Debug)]
pub struct OpenRequest {
    pub ticket: u64,
    pub item_id: String,
    /// What retiring the previous session asks for, to be done first.
    pub teardown: Teardown,
}

/// How the result of an open request was taken.
#[derive(Debug)]
pub enum OpenOutcome {
    /// The session is active: load `stream_url` into the pipeline, start both
    /// recurring tasks and show the rest.
    Installed { title: String, author: String, duration: u64, current_time: u64, stream_url: String },
    /// No session was installed; `close` retires one the service opened anyway.
    Failed { error: ApiError, close: Option<RemoteSync> },
    /// The request was no longer the tracked one; nothing changed.
    Superseded,
}

/// What one tick of the progress sampler did.
#[derive(Clone, Copy, Debug, PartialEq, Eq, Structural)]
pub enum SampleOutcome {
    /// No active session: the task ends.
    Halt,
    /// The engine is not playing; nothing sampled.
    Skipped,
    /// The session's position is now this.
    Sampled(u64),
}

/// What one tick of the sync scheduler did.
#[derive(Debug)]
pub enum SyncOutcome {
    /// No active session: the task ends.
    Halt,
    /// Push this report on a background worker, without waiting for it.
    Push(RemoteSync),
}

struct PendingOpen {
    ticket: u64,
    item_id: String,
    seek: Option<u64>,
}

pub struct PendingView {
    pub ticket: u64,
    pub item_id: Seq<char>,
    pub seek: Option<u64>,
}

pub struct ControllerView {
    pub session: Option<SessionView>,
    pub engine: MediaEngine,
    pub pending: Option<PendingView>,
    pub next_ticket: u64,
    pub sampler_running: bool,
    pub sync_running: bool,
}

/// The ticket after `t`, wrapping round at the top.
pub open spec fn ticket_after(t: u64) -> u64 {
    if t == u64::MAX {
        0
    } else {
        (t + 1) as u64
    }
}

/// Where playback begins: the requested offset, else the service's position.
pub open spec fn start_position(seek: Option<u64>, served: u64) -> u64 {
    match seek {
        Some(s) => s,
        None => served,
    }
}

/// The initial seek the engine gets: none for a start within the first second.
pub open spec fn initial_seek(start: u64) -> Option<u64> {
    if start > 1 {
        Some(start)
    } else {
        None
    }
}

/// `base + delta`, clamped to the range of positions.
pub open spec fn shifted(base: u64, delta: i64) -> u64 {
    let t = base as int + delta as int;
    if t < 0 {
        0
    } else if t > u64::MAX as int {
        u64::MAX
    } else {
        t as u64
    }
}

impl ControllerView {
    /// A session is live: installed, with an engine that has not ended.
    pub open spec fn is_live(self) -> bool {
        self.session is Some && self.engine.state != EngineState::Idle
            && !self.engine.state.is_terminal()
    }

    /// The result of request `ticket` is the one still awaited.
    pub open spec fn awaits(self, ticket: u64) -> bool {
        self.pending is Some && self.pending->0.ticket == ticket
    }

    /// State after `stop`: nothing active, nothing in flight.
    pub open spec fn stopped(self) -> ControllerView {
        ControllerView {
            session: None,
            engine: MediaEngine::idle_spec(),
            pending: None,
            next_ticket: self.next_ticket,
            sampler_running: false,
            sync_running: false,
        }
    }

    /// The close report that retiring the current session sends, if any.
    pub open spec fn stop_close(self) -> Option<SyncView> {
        match self.session {
            Some(s) => Some(report_of(s)),
            None => None,
        }
    }

    /// State after `start`: the previous session retired, the new request tracked.
    pub open spec fn started(self, item_id: Seq<char>, seek: Option<u64>) -> ControllerView {
        ControllerView {
            pending: Some(PendingView { ticket: self.next_ticket, item_id, seek }),
            next_ticket: ticket_after(self.next_ticket),
            ..self.stopped()
        }
    }

    /// The granted session in place, with a fresh engine set to start where asked.
    pub open spec fn installed(self, p: PendingView, g: OpenedView) -> ControllerView {
        let start = start_position(p.seek, g.current_time);
        ControllerView {
            session: Some(
                SessionView {
                    session_id: g.session_id,
                    item_id: p.item_id,
                    stream_url: g.audio_track_url->0,
                    duration: g.duration,
                    current_time: start,
                },
            ),
            engine: MediaEngine::idle_spec().initialize_spec(initial_seek(start)),
            pending: None,
            sampler_running: true,
            sync_running: true,
            ..self
        }
    }

    /// State after the result of request `ticket` arrives (`None`: it failed).
    pub open spec fn delivered(self, ticket: u64, grant: Option<OpenedView>) -> ControllerView {
        if !self.awaits(ticket) {
            self
        } else if grant is Some && grant->0.audio_track_url is Some {
            self.installed(self.pending->0, grant->0)
        } else {
            ControllerView { pending: None, ..self }
        }
    }

    /// State and outcome of one progress-sampler tick.
    pub open spec fn sampled(self, reported: Option<u64>) -> (ControllerView, SampleOutcome) {
        if !self.is_live() {
            (ControllerView { sampler_running: false, ..self }, SampleOutcome::Halt)
        } else if self.engine.state != EngineState::Playing {
            (self, SampleOutcome::Skipped)
        } else {
            let p = self.engine.position_spec(reported);
            (
                ControllerView {
                    session: Some(SessionView { current_time: p, ..self.session->0 }),
                    engine: MediaEngine { last_position: p, ..self.engine },
                    ..self
                },
                SampleOutcome::Sampled(p),
            )
        }
    }

    /// State and report of one sync-scheduler tick.
    pub open spec fn sync_ticked(self) -> (ControllerView, Option<SyncView>) {
        if !self.is_live() {
            (ControllerView { sync_running: false, ..self }, None)
        } else {
            (self, Some(report_of(self.session->0)))
        }
    }

    /// State after the engine ends in the terminal `state`.
    pub open spec fn ended(self, state: EngineState) -> ControllerView {
        if !self.is_live() {
            self
        } else {
            ControllerView {
                session: None,
                engine: self.engine.end_spec(state),
                sampler_running: false,
                sync_running: false,
                ..self
            }
        }
    }

    /// State and command of a seek to `to`.
    pub open spec fn seeked(self, to: u64) -> (ControllerView, Option<EngineCommand>) {
        if !self.is_live() {
            (self, None)
        } else {
            let (e, cmd) = self.engine.seek_spec(to);
            (
                ControllerView {
                    session: Some(SessionView { current_time: to, ..self.session->0 }),
                    engine: e,
                    ..self
                },
                cmd,
            )
        }
    }

    /// An engine transition, taken only while a session is live.
    pub open spec fn engine_step(self, step: (MediaEngine, Option<EngineCommand>)) -> (
        ControllerView,
        Option<EngineCommand>,
    ) {
        if !self.is_live() {
            (self, None)
        } else {
            (ControllerView { engine: step.0, ..self }, step.1)
        }
    }
}

/// Owner of the single active session and of the engine, sampler and
/// scheduler that serve it. All calls happen on the event loop.
pub struct SessionController {
    session: Option<PlaybackSession>,
    engine: MediaEngine,
    pending: Option<PendingOpen>,
    next_ticket: u64,
    sampler_running: bool,
    sync_running: bool,
}

impl View for SessionController {
    type V = ControllerView;

    closed spec fn view(&self) -> ControllerView {
        ControllerView {
            session: match self.session {
                Some(s) => Some(s@),
                None => None,
            },
            engine: self.engine,
            pending: match self.pending {
                Some(p) => Some(PendingView { ticket: p.ticket, item_id: p.item_id@, seek: p.seek }),
                None => None,
            },
            next_ticket: self.next_ticket,
            sampler_running: self.sampler_running,
            sync_running: self.sync_running,
        }
    }
}

impl SessionController {
    /// No session, an idle engine, nothing in flight.
    pub fn new() -> (r: SessionController)
        ensures
            r@.session is None,
            r@.engine == MediaEngine::idle_spec(),
            r@.pending is None,
            r@.next_ticket == 0,
            !r@.sampler_running,
            !r@.sync_running,
    {
        SessionController {
            session: None,
            engine: MediaEngine::new(),
            pending: None,
            next_ticket: 0,
            sampler_running: false,
            sync_running: false,
        }
    }

    fn take_session(&mut self) -> (r: Option<RemoteSync>)
        ensures
            final(self)@ == (ControllerView { session: None, ..old(self)@ }),
            match r {
                Some(c) => old(self)@.stop_close() == Some(c@),
                None => old(self)@.stop_close() is None,
            },
    {
        let close = match &self.session {
            Some(s) => Some(
                RemoteSync {
                    session_id: s.session_id.clone(),
                    current_time: s.current_time,
                    duration: s.duration,
                },
            ),
            None => None,
        };
        self.session = None;
        close
    }

    /// Retire whatever is active or in flight: cancel both recurring tasks,
    /// report a best-effort close of the session, shut the engine down and
    /// forget any open request. Calling it again changes nothing and asks
    /// for nothing.
    pub fn stop(&mut self) -> (r: Teardown)
        ensures
            final(self)@ == old(self)@.stopped(),
            r.cancel_sampler == old(self)@.sampler_running,
            r.cancel_sync == old(self)@.sync_running,
            r.shutdown_engine == (old(self)@.engine.state != EngineState::Idle),
            match r.close {
                Some(c) => old(self)@.stop_close() == Some(c@),
                None => old(self)@.stop_close() is None,
            },
    {
        let cancel_sampler = self.sampler_running;
        let cancel_sync = self.sync_running;
        let shutdown_engine = self.engine.state != EngineState::Idle;
        let close = self.take_session();
        self.sampler_running = false;
        self.sync_running = false;
        self.engine = MediaEngine::new();
        self.pending = None;
        Teardown { cancel_sampler, cancel_sync, close, shutdown_engine }
    }

    /// Start a session for `item_id`, at `seek` seconds if given: the current
    /// session is retired first, then a request is issued whose result alone
    /// will be taken; the result of any earlier request will be discarded.
    pub fn start(&mut self, item_id: &str, seek: Option<u64>) -> (r: OpenRequest)
        requires
            item_id@.len() > 0,
        ensures
            final(self)@ == old(self)@.started(item_id@, seek),
            r.ticket == old(self)@.next_ticket,
            r.item_id@ == item_id@,
            r.teardown.cancel_sampler == old(self)@.sampler_running,
            r.teardown.cancel_sync == old(self)@.sync_running,
            r.teardown.shutdown_engine == (old(self)@.engine.state != EngineState::Idle),
            match r.teardown.close {
                Some(c) => old(self)@.stop_close() == Some(c@),
                None => old(self)@.stop_close() is None,
            },
    {
        let teardown = self.stop();
        let ticket = self.next_ticket;
        self.next_ticket = if ticket == u64::MAX {
            0
        } else {
            ticket + 1
        };
        self.pending = Some(PendingOpen { ticket, item_id: String::from_str(item_id), seek });
        OpenRequest { ticket, item_id: String::from_str(item_id), teardown }
    }
}


impl SessionController {
    /// Take the result of the open request `ticket`. Only the request that is
    /// still tracked counts; any other result is discarded. On success the
    /// session is installed with a fresh engine that starts at the requested
    /// offset, else at the service's position.
    pub fn on_open_result(&mut self, ticket: u64, result: Result<OpenedSession, ApiError>) -> (r:
        OpenOutcome)
        ensures
            final(self)@ == old(self)@.delivered(ticket, grant_of(result)),
            !old(self)@.awaits(ticket) ==> r is Superseded,
            old(self)@.awaits(ticket) ==> match result {
                Err(e) => r == (OpenOutcome::Failed { error: e, close: None }),
                Ok(o) => match o.audio_track_url {
                    None => match r {
                        OpenOutcome::Failed { error: ApiError::Parse(_), close: Some(c) } => c@
                            == (SyncView {
                            session_id: o.session_id@,
                            current_time: o.current_time,
                            duration: o.duration,
                        }),
                        _ => false,
                    },
                    Some(u) => match r {
                        OpenOutcome::Installed {
                            title,
                            author,
                            duration,
                            current_time,
                            stream_url,
                        } => {
                            &&& title@ == match o.display_title {
                                Some(t) => t@,
                                None => "Unknown Book"@,
                            }
                            &&& author@ == match o.display_author {
                                Some(a) => a@,
                                None => Seq::<char>::empty(),
                            }
                            &&& duration == o.duration
                            &&& current_time == start_position(
                                old(self)@.pending->0.seek,
                                o.current_time,
                            )
                            &&& stream_url@ == u@
                        },
                        _ => false,
                    },
                },
            },
    {
        let current = match &self.pending {
            Some(p) => p.ticket == ticket,
            None => false,
        };
        if !current {
            return OpenOutcome::Superseded;
        }
        let pending = self.pending.take();
        let pending = match pending {
            Some(p) => p,
            None => {
                return OpenOutcome::Superseded;
            },
        };
        let opened = match result {
            Ok(o) => o,
            Err(e) => {
                return OpenOutcome::Failed { error: e, close: None };
            },
        };
        let stream_url = match opened.audio_track_url {
            Some(u) => u,
            None => {
                let close = RemoteSync {
                    session_id: opened.session_id,
                    current_time: opened.current_time,
                    duration: opened.duration,
                };
                return OpenOutcome::Failed {
                    error: ApiError::Parse(String::from_str("no audio track in session")),
                    close: Some(close),
                };
            },
        };
        let start = match pending.seek {
            Some(s) => s,
            None => opened.current_time,
        };
        let mut engine = MediaEngine::new();
        engine.initialize(if start > 1 { Some(start) } else { None });
        self.engine = engine;
        self.session = Some(
            PlaybackSession {
                session_id: opened.session_id,
                item_id: pending.item_id,
                stream_url: stream_url.clone(),
                duration: opened.duration,
                current_time: start,
            },
        );
        self.sampler_running = true;
        self.sync_running = true;
        let title = match opened.display_title {
            Some(t) => t,
            None => String::from_str("Unknown Book"),
        };
        let author = match opened.display_author {
            Some(a) => a,
            None => String::new(),
        };
        OpenOutcome::Installed {
            title,
            author,
            duration: opened.duration,
            current_time: start,
            stream_url,
        }
    }

    fn live(&self) -> (r: bool)
        ensures
            r == self@.is_live(),
    {
        self.session.is_some() && self.engine.state != EngineState::Idle
            && !self.engine.state.terminal()
    }

    /// One tick of the progress sampler. While playing, the engine's position
    /// (its last sample when it reports none) becomes the session's.
    pub fn sample_tick(&mut self, reported: Option<u64>) -> (r: SampleOutcome)
        ensures
            (final(self)@, r) == old(self)@.sampled(reported),
    {
        if !self.live() {
            self.sampler_running = false;
            return SampleOutcome::Halt;
        }
        if self.engine.state != EngineState::Playing {
            return SampleOutcome::Skipped;
        }
        let p = self.engine.position(reported);
        match &mut self.session {
            Some(s) => {
                s.current_time = p;
            },
            None => {},
        }
        SampleOutcome::Sampled(p)
    }

    /// One tick of the sync scheduler: a report of the live session's
    /// progress, to be pushed without waiting for it.
    pub fn sync_tick(&mut self) -> (r: SyncOutcome)
        ensures
            final(self)@ == old(self)@.sync_ticked().0,
            match r {
                SyncOutcome::Halt => old(self)@.sync_ticked().1 is None,
                SyncOutcome::Push(c) => old(self)@.sync_ticked().1 == Some(c@),
            },
    {
        if !self.live() {
            self.sync_running = false;
            return SyncOutcome::Halt;
        }
        match &self.session {
            Some(s) => SyncOutcome::Push(
                RemoteSync {
                    session_id: s.session_id.clone(),
                    current_time: s.current_time,
                    duration: s.duration,
                },
            ),
            None => SyncOutcome::Halt,
        }
    }

    /// The engine signalled that it is ready (applies the initial seek once).
    pub fn on_engine_ready(&mut self) -> (r: Option<EngineCommand>)
        ensures
            (final(self)@, r) == old(self)@.engine_step(old(self)@.engine.ready_spec()),
    {
        if !self.live() {
            return None;
        }
        self.engine.on_ready()
    }

    /// A buffer level from the engine, in percent, for the governor.
    pub fn on_buffer_level(&mut self, percent: u32) -> (r: Option<EngineCommand>)
        ensures
            (final(self)@, r) == old(self)@.engine_step(old(self)@.engine.buffer_spec(percent)),
    {
        if !self.live() {
            return None;
        }
        self.engine.on_buffer_level(percent)
    }

    /// The listener's play/pause; nothing without a live session.
    pub fn toggle_play_pause(&mut self) -> (r: Option<EngineCommand>)
        ensures
            (final(self)@, r) == old(self)@.engine_step(old(self)@.engine.toggle_spec()),
    {
        if !self.live() {
            return None;
        }
        self.engine.toggle_play_pause()
    }

    /// Seek the live session to `to` seconds.
    pub fn seek(&mut self, to: u64) -> (r: Option<EngineCommand>)
        ensures
            (final(self)@, r) == old(self)@.seeked(to),
    {
        if !self.live() {
            return None;
        }
        let cmd = self.engine.seek(to);
        match &mut self.session {
            Some(s) => {
                s.current_time = to;
            },
            None => {},
        }
        cmd
    }

    /// Seek by `delta` seconds from the session's position, never before the
    /// start of the stream.
    pub fn seek_relative(&mut self, delta: i64) -> (r: Option<EngineCommand>)
        ensures
            (final(self)@, r) == old(self)@.seeked(
                shifted(old(self)@.session->0.current_time, delta),
            ),
    {
        if !self.live() {
            return None;
        }
        let base: u64 = match &self.session {
            Some(s) => s.current_time,
            None => 0,
        };
        let t: i128 = base as i128 + delta as i128;
        let to: u64 = if t < 0 {
            0
        } else if t > u64::MAX as i128 {
            u64::MAX
        } else {
            t as u64
        };
        self.seek(to)
    }

    fn retire(&mut self, state: EngineState) -> (r: Teardown)
        requires
            state.is_terminal(),
        ensures
            final(self)@ == old(self)@.ended(state),
            r.cancel_sampler == (old(self)@.is_live() && old(self)@.sampler_running),
            r.cancel_sync == (old(self)@.is_live() && old(self)@.sync_running),
            r.shutdown_engine == old(self)@.is_live(),
            match r.close {
                Some(c) => old(self)@.is_live() && old(self)@.stop_close() == Some(c@),
                None => !old(self)@.is_live(),
            },
    {
        if !self.live() {
            return Teardown { cancel_sampler: false, cancel_sync: false, close: None, shutdown_engine: false };
        }
        let cancel_sampler = self.sampler_running;
        let cancel_sync = self.sync_running;
        let close = self.take_session();
        self.sampler_running = false;
        self.sync_running = false;
        if state == EngineState::Finished {
            self.engine.on_end_of_stream();
        } else {
            self.engine.on_fault();
        }
        Teardown { cancel_sampler, cancel_sync, close, shutdown_engine: true }
    }

    /// The stream ended: the engine is `Finished` and the session retired.
    pub fn on_end_of_stream(&mut self) -> (r: Teardown)
        ensures
            final(self)@ == old(self)@.ended(EngineState::Finished),
            r.cancel_sampler == (old(self)@.is_live() && old(self)@.sampler_running),
            r.cancel_sync == (old(self)@.is_live() && old(self)@.sync_running),
            r.shutdown_engine == old(self)@.is_live(),
            match r.close {
                Some(c) => old(self)@.is_live() && old(self)@.stop_close() == Some(c@),
                None => !old(self)@.is_live(),
            },
    {
        self.retire(EngineState::Finished)
    }

    /// The engine failed: it is in `Error` and the session retired; the rest
    /// of the application goes on.
    pub fn on_engine_fault(&mut self) -> (r: Teardown)
        ensures
            final(self)@ == old(self)@.ended(EngineState::Error),
            r.cancel_sampler == (old(self)@.is_live() && old(self)@.sampler_running),
            r.cancel_sync == (old(self)@.is_live() && old(self)@.sync_running),
            r.shutdown_engine == old(self)@.is_live(),
            match r.close {
                Some(c) => old(self)@.is_live() && old(self)@.stop_close() == Some(c@),
                None => !old(self)@.is_live(),
            },
    {
        self.retire(EngineState::Error)
    }

    pub fn engine_state(&self) -> (r: EngineState)
        ensures
            r == self@.engine.state,
    {
        self.engine.state
    }

    pub fn session(&self) -> (r: Option<&PlaybackSession>)
        ensures
            match r {
                Some(s) => self@.session == Some(s@),
                None => self@.session is None,
            },
    {
        self.session.as_ref()
    }

    /// Whether the result of request `ticket` would still be taken.
    pub fn awaits(&self, ticket: u64) -> (r: bool)
        ensures
            r == self@.awaits(ticket),
    {
        match &self.pending {
            Some(p) => p.ticket == ticket,
            None => false,
        }
    }
}


/// Of two starts with no stop between, the later one wins: the earlier
/// request's result is discarded whether it arrives before or after the later
/// one's, and the session installed is the later item's, with the later
/// grant's length and position.
pub proof fn lemma_latest_start_wins(
    c: ControllerView,
    a: Seq<char>,
    seek_a: Option<u64>,
    b: Seq<char>,
    seek_b: Option<u64>,
    grant_a: Option<OpenedView>,
    grant_b: OpenedView,
)
    requires
        grant_b.audio_track_url is Some,
    ensures
        ({
            let c1 = c.started(a, seek_a);
            let c2 = c1.started(b, seek_b);
            let won = c2.delivered(c1.next_ticket, Some(grant_b));
            &&& c2.delivered(c.next_ticket, grant_a) == c2
            &&& won.delivered(c.next_ticket, grant_a) == won
            &&& won.session is Some
            &&& won.session->0.item_id == b
            &&& won.session->0.session_id == grant_b.session_id
            &&& won.session->0.duration == grant_b.duration
            &&& won.session->0.current_time == start_position(seek_b, grant_b.current_time)
        }),
{
}

/// Stopping twice is stopping once: the second call leaves the same state
/// (idle engine, no session, nothing in flight) and reports no close, cancels
/// no task and shuts no engine down.
pub proof fn lemma_stop_idempotent(c: ControllerView)
    ensures
        c.stopped().stopped() == c.stopped(),
        c.stopped().session is None,
        c.stopped().engine.state == EngineState::Idle,
        c.stopped().stop_close() is None,
        !c.stopped().sampler_running,
        !c.stopped().sync_running,
{
}

/// After a stop, the next tick of either recurring task ends it, touching
/// nothing and pushing no report.
pub proof fn lemma_tasks_end_after_stop(c: ControllerView, reported: Option<u64>)
    ensures
        c.stopped().sampled(reported) == (c.stopped(), SampleOutcome::Halt),
        c.stopped().sync_ticked() == (c.stopped(), None::<SyncView>),
{
}

/// A failed start leaves nothing behind: no session, nothing in flight, and
/// a later start whose request succeeds installs its session as usual.
pub proof fn lemma_failed_start_recovers(
    c: ControllerView,
    a: Seq<char>,
    seek_a: Option<u64>,
    b: Seq<char>,
    seek_b: Option<u64>,
    grant_b: OpenedView,
)
    requires
        grant_b.audio_track_url is Some,
    ensures
        ({
            let failed = c.started(a, seek_a).delivered(c.next_ticket, None);
            let again = failed.started(b, seek_b);
            let won = again.delivered(failed.next_ticket, Some(grant_b));
            &&& failed.session is None
            &&& failed.pending is None
            &&& won.session is Some
            &&& won.session->0.item_id == b
            &&& won.engine.state == EngineState::Buffering
        }),
{
}

} // verus!
