use shelfily::engine::{EngineCommand, EngineState};
use shelfily::error::ApiError;
use shelfily::session::{
    OpenOutcome, OpenedSession, SampleOutcome, SessionController, SyncOutcome,
};

fn grant(id: &str, duration: u64, current_time: u64) -> OpenedSession {
    OpenedSession {
        session_id: id.to_string(),
        display_title: Some("The Book".to_string()),
        display_author: Some("An Author".to_string()),
        duration,
        current_time,
        audio_track_url: Some("http://host/track.mp3".to_string()),
    }
}

fn playing_controller() -> SessionController {
    let mut c = SessionController::new();
    let req = c.start("book-1", None);
    let out = c.on_open_result(req.ticket, Ok(grant("s1", 3600, 120)));
    assert!(matches!(out, OpenOutcome::Installed { .. }));
    assert_eq!(c.on_engine_ready(), Some(EngineCommand::Seek(120)));
    assert_eq!(c.on_buffer_level(100), Some(EngineCommand::Play));
    assert_eq!(c.engine_state(), EngineState::Playing);
    c
}

#[test]
fn open_sample_and_sync() {
    let mut c = SessionController::new();
    let req = c.start("book-1", None);
    assert_eq!(req.item_id, "book-1");
    assert!(req.teardown.close.is_none());
    match c.on_open_result(req.ticket, Ok(grant("s1", 3600, 120))) {
        OpenOutcome::Installed { title, author, duration, current_time, stream_url } => {
            assert_eq!(title, "The Book");
            assert_eq!(author, "An Author");
            assert_eq!(duration, 3600);
            assert_eq!(current_time, 120);
            assert_eq!(stream_url, "http://host/track.mp3");
        }
        other => panic!("unexpected {:?}", other),
    }
    assert_eq!(c.engine_state(), EngineState::Buffering);
    assert_eq!(c.on_engine_ready(), Some(EngineCommand::Seek(120)));
    assert_eq!(c.on_buffer_level(100), Some(EngineCommand::Play));
    assert_eq!(c.sample_tick(Some(121)), SampleOutcome::Sampled(121));
    assert_eq!(c.session().unwrap().current_time, 121);
    match c.sync_tick() {
        SyncOutcome::Push(r) => {
            assert_eq!(r.session_id, "s1");
            assert_eq!(r.current_time, 121);
            assert_eq!(r.duration, 3600);
        }
        SyncOutcome::Halt => panic!("sync halted"),
    }
}

#[test]
fn failed_open_then_retry() {
    let mut c = SessionController::new();
    let req = c.start("book-1", None);
    match c.on_open_result(req.ticket, Err(ApiError::Network("down".to_string()))) {
        OpenOutcome::Failed { error, close } => {
            assert_eq!(error, ApiError::Network("down".to_string()));
            assert!(close.is_none());
        }
        other => panic!("unexpected {:?}", other),
    }
    assert!(c.session().is_none());
    assert!(!c.awaits(req.ticket));
    let again = c.start("book-1", None);
    assert!(matches!(
        c.on_open_result(again.ticket, Ok(grant("s2", 100, 0))),
        OpenOutcome::Installed { .. }
    ));
    assert_eq!(c.session().unwrap().session_id, "s2");
}

#[test]
fn later_start_wins() {
    let mut c = SessionController::new();
    let a = c.start("book-a", None);
    let b = c.start("book-b", None);
    assert_ne!(a.ticket, b.ticket);
    assert!(matches!(c.on_open_result(a.ticket, Ok(grant("sa", 50, 5))), OpenOutcome::Superseded));
    assert!(c.session().is_none());
    assert!(matches!(
        c.on_open_result(b.ticket, Ok(grant("sb", 900, 30))),
        OpenOutcome::Installed { .. }
    ));
    assert!(matches!(c.on_open_result(a.ticket, Ok(grant("sa", 50, 5))), OpenOutcome::Superseded));
    let s = c.session().unwrap();
    assert_eq!(s.item_id, "book-b");
    assert_eq!(s.session_id, "sb");
    assert_eq!(s.duration, 900);
    assert_eq!(s.current_time, 30);
}

#[test]
fn start_retires_previous_session() {
    let mut c = playing_controller();
    let req = c.start("book-2", Some(600));
    let close = req.teardown.close.expect("close of the previous session");
    assert_eq!(close.session_id, "s1");
    assert_eq!(close.current_time, 120);
    assert_eq!(close.duration, 3600);
    assert!(req.teardown.cancel_sampler && req.teardown.cancel_sync && req.teardown.shutdown_engine);
    match c.on_open_result(req.ticket, Ok(grant("s9", 3600, 10))) {
        OpenOutcome::Installed { current_time, .. } => assert_eq!(current_time, 600),
        other => panic!("unexpected {:?}", other),
    }
}

#[test]
fn stop_twice_is_stop_once() {
    let mut c = playing_controller();
    let first = c.stop();
    assert!(first.close.is_some());
    assert!(first.cancel_sampler && first.cancel_sync && first.shutdown_engine);
    assert_eq!(c.engine_state(), EngineState::Idle);
    assert!(c.session().is_none());
    let second = c.stop();
    assert!(second.close.is_none());
    assert!(!second.cancel_sampler && !second.cancel_sync && !second.shutdown_engine);
    assert_eq!(c.engine_state(), EngineState::Idle);
    assert!(c.session().is_none());
}

#[test]
fn ticks_halt_after_stop() {
    let mut c = playing_controller();
    c.stop();
    assert_eq!(c.sample_tick(Some(500)), SampleOutcome::Halt);
    assert!(matches!(c.sync_tick(), SyncOutcome::Halt));
}

#[test]
fn seek_relative_clamps_at_zero() {
    let mut c = SessionController::new();
    let req = c.start("book-1", None);
    c.on_open_result(req.ticket, Ok(grant("s1", 3600, 10)));
    assert_eq!(c.seek_relative(-30), Some(EngineCommand::Seek(0)));
    assert_eq!(c.session().unwrap().current_time, 0);
    assert_eq!(c.seek_relative(45), Some(EngineCommand::Seek(45)));
    assert_eq!(c.seek(3000), Some(EngineCommand::Seek(3000)));
}

#[test]
fn seek_without_session_does_nothing() {
    let mut c = SessionController::new();
    assert_eq!(c.seek_relative(-30), None);
    assert_eq!(c.toggle_play_pause(), None);
}

#[test]
fn initial_seek_applies_once() {
    let mut c = playing_controller();
    assert_eq!(c.on_buffer_level(40), Some(EngineCommand::Pause));
    assert_eq!(c.on_engine_ready(), None);
    assert_eq!(c.on_buffer_level(100), Some(EngineCommand::Play));
}

#[test]
fn no_seek_for_start_at_beginning() {
    let mut c = SessionController::new();
    let req = c.start("book-1", None);
    c.on_open_result(req.ticket, Ok(grant("s1", 3600, 1)));
    assert_eq!(c.on_engine_ready(), None);
}

#[test]
fn governor_pauses_and_resumes() {
    let mut c = playing_controller();
    let cmds: Vec<Option<EngineCommand>> =
        [100, 20, 100].iter().map(|p| c.on_buffer_level(*p)).collect();
    assert_eq!(cmds, vec![None, Some(EngineCommand::Pause), Some(EngineCommand::Play)]);
}

#[test]
fn user_pause_suppresses_auto_resume() {
    let mut c = playing_controller();
    assert_eq!(c.toggle_play_pause(), Some(EngineCommand::Pause));
    assert_eq!(c.on_buffer_level(20), None);
    assert_eq!(c.on_buffer_level(100), None);
    assert_eq!(c.engine_state(), EngineState::Paused);
}

#[test]
fn user_pause_while_buffering_holds() {
    let mut c = playing_controller();
    assert_eq!(c.on_buffer_level(10), Some(EngineCommand::Pause));
    assert_eq!(c.engine_state(), EngineState::Buffering);
    assert_eq!(c.toggle_play_pause(), None);
    assert_eq!(c.on_buffer_level(100), None);
    assert_eq!(c.engine_state(), EngineState::Paused);
    assert_eq!(c.toggle_play_pause(), Some(EngineCommand::Play));
    assert_eq!(c.engine_state(), EngineState::Playing);
}

#[test]
fn sampler_skips_while_paused() {
    let mut c = playing_controller();
    c.toggle_play_pause();
    assert_eq!(c.sample_tick(Some(300)), SampleOutcome::Skipped);
    assert_eq!(c.session().unwrap().current_time, 120);
}

#[test]
fn sampler_keeps_last_position_without_report() {
    let mut c = playing_controller();
    assert_eq!(c.sample_tick(Some(130)), SampleOutcome::Sampled(130));
    assert_eq!(c.sample_tick(None), SampleOutcome::Sampled(130));
}

#[test]
fn end_of_stream_retires_session() {
    let mut c = playing_controller();
    let t = c.on_end_of_stream();
    assert!(t.close.is_some() && t.cancel_sampler && t.cancel_sync && t.shutdown_engine);
    assert_eq!(c.engine_state(), EngineState::Finished);
    assert!(c.session().is_none());
    assert_eq!(c.sample_tick(None), SampleOutcome::Halt);
    assert_eq!(c.on_buffer_level(100), None);
    let again = c.on_end_of_stream();
    assert!(again.close.is_none() && !again.shutdown_engine);
}

#[test]
fn engine_fault_retires_session() {
    let mut c = playing_controller();
    let t = c.on_engine_fault();
    assert_eq!(t.close.unwrap().session_id, "s1");
    assert_eq!(c.engine_state(), EngineState::Error);
    assert!(matches!(c.sync_tick(), SyncOutcome::Halt));
    let req = c.start("book-1", None);
    assert!(req.teardown.shutdown_engine);
    assert!(req.teardown.close.is_none());
}

#[test]
fn missing_track_fails_and_closes() {
    let mut c = SessionController::new();
    let req = c.start("book-1", None);
    let mut g = grant("s1", 3600, 7);
    g.audio_track_url = None;
    g.display_title = None;
    match c.on_open_result(req.ticket, Ok(g)) {
        OpenOutcome::Failed { error: ApiError::Parse(_), close: Some(close) } => {
            assert_eq!(close.session_id, "s1");
            assert_eq!(close.current_time, 7);
        }
        other => panic!("unexpected {:?}", other),
    }
    assert!(c.session().is_none());
}

#[test]
fn untitled_session_gets_default_title() {
    let mut c = SessionController::new();
    let req = c.start("book-1", None);
    let mut g = grant("s1", 3600, 7);
    g.display_title = None;
    g.display_author = None;
    match c.on_open_result(req.ticket, Ok(g)) {
        OpenOutcome::Installed { title, author, .. } => {
            assert_eq!(title, "Unknown Book");
            assert_eq!(author, "");
        }
        other => panic!("unexpected {:?}", other),
    }
}

#[test]
fn stop_cancels_request_in_flight() {
    let mut c = SessionController::new();
    let req = c.start("book-1", None);
    c.stop();
    assert!(matches!(c.on_open_result(req.ticket, Ok(grant("s1", 1, 1))), OpenOutcome::Superseded));
    assert!(c.session().is_none());
}
