//! Engine-wide laws: what holds of every way the playback loop can drive
//! the engine, stated over the same model transitions that the engine's
//! methods promise in their contracts.

use vstd::arithmetic::div_mod::lemma_div_is_ordered;
use vstd::prelude::*;

use crate::engine::inv;
use crate::engine::playing;
use crate::engine::sessions_alive;
use crate::engine::spec_elapsed_ms;
use crate::engine::spec_install;
use crate::engine::spec_play;
use crate::engine::spec_sync;
use crate::engine::spec_unload;
use crate::engine::EngineModel;
use crate::session::SessionModel;
use crate::transport::TransportModel;

verus! {

/// One model-level step of the playback loop: a command of any kind (each
/// drops the in-flight session first), the install of a freshly opened
/// session, or one play step.
pub enum EngineEvent {
    /// Any command: `Load`, `Stop` or `Shutdown`.
    Command,
    /// A session opened successfully and is installed.
    Install(SessionModel),
    /// One assembler fill and device write.
    Play,
}

/// An event the loop can actually deliver: only well-formed sessions come
/// out of the decoder.
pub open spec fn event_ok(ev: EngineEvent) -> bool {
    match ev {
        EngineEvent::Install(s) => s.wf(),
        _ => true,
    }
}

/// The engine model after one event.
pub open spec fn engine_step(m: EngineModel, ev: EngineEvent) -> EngineModel {
    match ev {
        EngineEvent::Command => spec_unload(m),
        EngineEvent::Install(s) => spec_install(m, s),
        EngineEvent::Play => if playing(m) {
            spec_play(m).0
        } else {
            m
        },
    }
}

/// The engine model after a sequence of events, applied in order.
pub open spec fn engine_run(m: EngineModel, evs: Seq<EngineEvent>) -> EngineModel
    decreases evs.len(),
{
    if evs.len() == 0 {
        m
    } else {
        engine_step(engine_run(m, evs.drop_last()), evs.last())
    }
}

/// Every single event preserves the engine's invariant.
pub proof fn lemma_step_preserves_inv(m: EngineModel, ev: EngineEvent)
    requires
        inv(m),
        event_ok(ev),
    ensures
        inv(engine_step(m, ev)),
{
}

/// Law: however the engine is driven — any sequence of commands, session
/// installs and play steps — its invariant holds, and at most one decoder
/// session and one output sink binding are alive at any instant.
pub proof fn lemma_at_most_one_session(m: EngineModel, evs: Seq<EngineEvent>)
    requires
        inv(m),
        forall|i: int| 0 <= i < evs.len() ==> event_ok(#[trigger] evs[i]),
    ensures
        inv(engine_run(m, evs)),
        sessions_alive(engine_run(m, evs)) <= 1,
    decreases evs.len(),
{
    if evs.len() > 0 {
        lemma_at_most_one_session(m, evs.drop_last());
        lemma_step_preserves_inv(engine_run(m, evs.drop_last()), evs.last());
    }
}

/// Law: a play step on which the assembler reports zero frames ends the
/// episode on its own — the session is dropped, and the next transport sync
/// publishes `stopped`, with no external `Stop` command required.
pub proof fn lemma_end_of_track(m: EngineModel, t: TransportModel)
    requires
        inv(m),
        playing(m),
        spec_play(m).1 == 0,
    ensures
        !playing(spec_play(m).0),
        spec_sync(spec_play(m).0, t).stopped,
        spec_sync(spec_play(m).0, t).current_time == t.current_time,
{
}

/// One play step never turns the clock back.
pub proof fn lemma_play_time_monotonic(m: EngineModel)
    requires
        inv(m),
    ensures
        spec_elapsed_ms(spec_play(m).0) >= spec_elapsed_ms(m),
{
    let m2 = spec_play(m).0;
    assert(m2.sink_rate == m.sink_rate);
    assert(m2.frames_played >= m.frames_played);
    lemma_div_is_ordered(
        m.frames_played * 1000,
        m2.frames_played * 1000,
        m.sink_rate as int,
    );
}

/// Law: the position the transport publishes never decreases across one
/// playing loop iteration — whether the play step keeps the episode going
/// or ends it, the sync after the step publishes a time at least the time
/// published before it.
pub proof fn lemma_published_time_monotonic(m: EngineModel, t: TransportModel)
    requires
        inv(m),
        playing(m),
    ensures
        spec_sync(spec_play(m).0, spec_sync(m, t)).current_time >= spec_sync(m, t).current_time,
{
    lemma_play_time_monotonic(m);
}

/// Law: once an episode is playing, its elapsed position is monotonically
/// non-decreasing across any run of play steps; only a new `Load` (which
/// installs a fresh session) or the episode's end can reset it.
pub proof fn lemma_episode_time_monotonic(m: EngineModel, evs: Seq<EngineEvent>)
    requires
        inv(m),
        forall|i: int| 0 <= i < evs.len() ==> #[trigger] evs[i] is Play,
    ensures
        inv(engine_run(m, evs)),
        spec_elapsed_ms(engine_run(m, evs)) >= spec_elapsed_ms(m),
    decreases evs.len(),
{
    if evs.len() > 0 {
        lemma_episode_time_monotonic(m, evs.drop_last());
        let before = engine_run(m, evs.drop_last());
        lemma_step_preserves_inv(before, evs.last());
        if playing(before) {
            lemma_play_time_monotonic(before);
        }
    }
}

} // verus!
