use vstd::prelude::*;
use crate::engine::{BUFFER_FULL_PERCENT, EngineCommand, EngineState, MediaEngine, PauseReason};

verus! {

/// Starved: the buffer level fell below full.
pub open spec fn is_starved(percent: u32) -> bool {
    percent < BUFFER_FULL_PERCENT
}

impl MediaEngine {
    /// State and command after a buffer level of `percent`.
    pub open spec fn buffer_spec(self, percent: u32) -> (MediaEngine, Option<EngineCommand>) {
        if is_starved(percent) {
            if self.state == EngineState::Playing {
                (
                    MediaEngine { state: EngineState::Buffering, hold: PauseReason::Governor, ..self },
                    Some(EngineCommand::Pause),
                )
            } else {
                (self, None)
            }
        } else if self.state == EngineState::Buffering {
            if self.hold == PauseReason::User {
                (MediaEngine { state: EngineState::Paused, ..self }, None)
            } else {
                (MediaEngine { state: EngineState::Playing, ..self }, Some(EngineCommand::Play))
            }
        } else {
            (self, None)
        }
    }

    /// The buffering governor. A starved buffer while `Playing` pauses the
    /// engine on the governor's account; a full buffer resumes it, unless the
    /// listener paused in the meantime, whose intent then prevails.
    pub fn on_buffer_level(&mut self, percent: u32) -> (r: Option<EngineCommand>)
        ensures
            (*final(self), r) == old(self).buffer_spec(percent),
    {
        if percent < BUFFER_FULL_PERCENT {
            if self.state == EngineState::Playing {
                self.state = EngineState::Buffering;
                self.hold = PauseReason::Governor;
                Some(EngineCommand::Pause)
            } else {
                None
            }
        } else if self.state == EngineState::Buffering {
            if self.hold == PauseReason::User {
                self.state = EngineState::Paused;
                None
            } else {
                self.state = EngineState::Playing;
                Some(EngineCommand::Play)
            }
        } else {
            None
        }
    }
}

/// The commands that a run of buffer levels draws from the governor, in order.
pub open spec fn governed(e: MediaEngine, levels: Seq<u32>) -> Seq<EngineCommand>
    decreases levels.len(),
{
    if levels.len() == 0 {
        Seq::empty()
    } else {
        let (next, cmd) = e.buffer_spec(levels[0]);
        let rest = governed(next, levels.drop_first());
        match cmd {
            Some(c) => seq![c].add(rest),
            None => rest,
        }
    }
}

/// Full, starved, full while playing: the governor pauses once and resumes
/// once, nothing more.
pub proof fn lemma_refill_resumes(e: MediaEngine, starved: u32)
    requires
        e.state == EngineState::Playing,
        is_starved(starved),
    ensures
        governed(e, seq![BUFFER_FULL_PERCENT, starved, BUFFER_FULL_PERCENT])
            == seq![EngineCommand::Pause, EngineCommand::Play],
{
    let levels = seq![BUFFER_FULL_PERCENT, starved, BUFFER_FULL_PERCENT];
    let e1 = e.buffer_spec(BUFFER_FULL_PERCENT).0;
    let e2 = e1.buffer_spec(starved).0;
    let e3 = e2.buffer_spec(BUFFER_FULL_PERCENT).0;
    assert(levels.drop_first() =~= seq![starved, BUFFER_FULL_PERCENT]);
    assert(levels.drop_first().drop_first() =~= seq![BUFFER_FULL_PERCENT]);
    assert(levels.drop_first().drop_first().drop_first() =~= Seq::<u32>::empty());
    assert(governed(e3, Seq::<u32>::empty()) == Seq::<EngineCommand>::empty());
    assert(governed(e2, seq![BUFFER_FULL_PERCENT]) =~= seq![EngineCommand::Play]);
    assert(governed(e1, seq![starved, BUFFER_FULL_PERCENT])
        =~= seq![EngineCommand::Pause, EngineCommand::Play]);
}

/// A listener's pause before the buffer starves keeps the governor silent:
/// no pause of its own, and no resume once the buffer is full again.
pub proof fn lemma_user_pause_prevails(e: MediaEngine, starved: u32)
    requires
        e.state == EngineState::Playing,
        is_starved(starved),
    ensures
        e.toggle_spec().1 == Some(EngineCommand::Pause),
        governed(e.toggle_spec().0, seq![starved, BUFFER_FULL_PERCENT])
            == Seq::<EngineCommand>::empty(),
{
    let p = e.toggle_spec().0;
    let levels = seq![starved, BUFFER_FULL_PERCENT];
    assert(levels.drop_first() =~= seq![BUFFER_FULL_PERCENT]);
    assert(levels.drop_first().drop_first() =~= Seq::<u32>::empty());
    let p1 = p.buffer_spec(starved).0;
    let p2 = p1.buffer_spec(BUFFER_FULL_PERCENT).0;
    assert(seq![BUFFER_FULL_PERCENT].drop_first() =~= Seq::<u32>::empty());
    assert(governed(p2, Seq::<u32>::empty()) == Seq::<EngineCommand>::empty());
    assert(governed(p1, seq![BUFFER_FULL_PERCENT]) =~= Seq::<EngineCommand>::empty());
}

/// A listener's pause while the governor holds the engine is not undone by
/// the refill: the engine lands in `Paused` and no play command goes out.
pub proof fn lemma_pause_while_buffering_prevails(e: MediaEngine)
    requires
        e.state == EngineState::Playing,
    ensures
        ({
            let held = e.buffer_spec(0).0;
            let paused = held.toggle_spec().0;
            &&& held.toggle_spec().1 == None::<EngineCommand>
            &&& paused.buffer_spec(BUFFER_FULL_PERCENT) == (
                MediaEngine { state: EngineState::Paused, ..paused },
                None::<EngineCommand>,
            )
        }),
{
}

} // verus!
