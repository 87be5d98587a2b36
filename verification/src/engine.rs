//! The playback engine's state machine.
//!
//! The playback thread drives it: each iteration drains at most one command,
//! then — when a session is active — fills one frame buffer and performs one
//! blocking write of it to the output device, the loop's pacing mechanism.
//! The engine itself decides; opening byte streams, the device write and the
//! locking of the shared transport state are its caller's to perform.

use vstd::arithmetic::div_mod::lemma_div_is_ordered;
use vstd::prelude::*;

use crate::assembler::assembled;
use crate::assembler::frames_touched;
use crate::assembler::iter_to_buffer;
use crate::assembler::pulled_samples;
use crate::assembler::BUFFER_SIZE;
use crate::queue::Command;
use crate::session::Session;
use crate::session::SessionModel;
use crate::transport::Transport;
use crate::transport::TransportModel;

verus! {

/// The rate the output sink is opened at before any track has played.
pub const DEFAULT_RATE: u32 = 44100;

/// The most frames one episode counts, so that the elapsed time in
/// milliseconds always fits its word.
pub const MAX_PLAYED_FRAMES: u64 = u64::MAX / 1000;

/// The mathematical content of the engine.
pub struct EngineModel {
    /// The active decoder session, if one is alive.
    pub session: Option<SessionModel>,
    /// The sample rate the output sink is currently bound to.
    pub sink_rate: u32,
    /// Frames written to the sink since the current episode began.
    pub frames_played: u64,
}

/// The states the engine can reach: one sink, at most one session, the
/// session decoded at the rate the sink is bound to, and a frame count the
/// clock can always scale.
pub open spec fn inv(m: EngineModel) -> bool {
    &&& m.sink_rate >= 1
    &&& m.frames_played <= MAX_PLAYED_FRAMES
    &&& (m.session matches Some(s) ==> s.wf() && s.rate == m.sink_rate)
}

/// Whether a session is actively streaming.
pub open spec fn playing(m: EngineModel) -> bool {
    m.session is Some
}

/// How many decoder sessions are alive.
pub open spec fn sessions_alive(m: EngineModel) -> int {
    if m.session is Some {
        1
    } else {
        0
    }
}

/// The engine before any command: idle, the sink at the default rate.
pub open spec fn init_model() -> EngineModel {
    EngineModel { session: None, sink_rate: DEFAULT_RATE, frames_played: 0 }
}

/// What every command does first: the superseded session, if any, is
/// dropped.
pub open spec fn spec_unload(m: EngineModel) -> EngineModel {
    EngineModel { session: None, ..m }
}

/// Installing a freshly opened session: it becomes the one live session,
/// the sink is bound to its rate and the episode's frame count restarts.
pub open spec fn spec_install(m: EngineModel, s: SessionModel) -> EngineModel {
    EngineModel { session: Some(s), sink_rate: s.rate, frames_played: 0 }
}

/// One play step: the assembler pulls up to a buffer's worth of samples,
/// the frame count grows by the frames touched (saturating at its cap), and
/// a step that yields no frames ends the episode by dropping the session.
pub open spec fn spec_play(m: EngineModel) -> (EngineModel, int) {
    match m.session {
        None => (m, 0),
        Some(s) => {
            let avail = pulled_samples(BUFFER_SIZE as int, s.remaining());
            let n = frames_touched(avail);
            let grown = m.frames_played + n;
            let fp = if grown > MAX_PLAYED_FRAMES {
                MAX_PLAYED_FRAMES
            } else {
                grown as u64
            };
            if n == 0 {
                (EngineModel { session: None, frames_played: fp, ..m }, 0)
            } else {
                (
                    EngineModel {
                        session: Some(SessionModel { pos: s.pos + avail, ..s }),
                        frames_played: fp,
                        ..m
                    },
                    n,
                )
            }
        },
    }
}

/// The elapsed position of the current episode in milliseconds.
pub open spec fn spec_elapsed_ms(m: EngineModel) -> u64 {
    (m.frames_played * 1000 / m.sink_rate as int) as u64
}

/// What one transport sync publishes: the stopped flag mirrors whether a
/// session is alive, the position is republished only while playing, and
/// the duration cache is untouched.
pub open spec fn spec_sync(m: EngineModel, t: TransportModel) -> TransportModel {
    TransportModel {
        stopped: !playing(m),
        current_time: if playing(m) {
            spec_elapsed_ms(m)
        } else {
            t.current_time
        },
        durations: t.durations,
    }
}

/// What the playback loop must do after handling one command.
pub enum Step {
    /// A track was requested: read its byte stream, open a session over it,
    /// and install the session on success.
    OpenStream(String),
    /// Playback was relinquished: publish the stop.
    Stopped,
    /// The engine was told to shut down: leave the loop.
    Exit,
}

/// The playback engine: the decoder session and output sink binding owned
/// by the playback thread.
pub struct Engine {
    session: Option<Session>,
    sink_rate: u32,
    frames_played: u64,
}

impl View for Engine {
    type V = EngineModel;

    closed spec fn view(&self) -> EngineModel {
        EngineModel {
            session: match self.session {
                Some(s) => Some(s@),
                None => None,
            },
            sink_rate: self.sink_rate,
            frames_played: self.frames_played,
        }
    }
}

impl Engine {
    /// A fresh engine: idle, its sink bound to the default rate.
    pub fn new() -> (e: Engine)
        ensures
            e@ == init_model(),
            inv(e@),
    {
        Engine { session: None, sink_rate: DEFAULT_RATE, frames_played: 0 }
    }

    /// Whether a session is actively streaming.
    pub fn is_playing(&self) -> (r: bool)
        ensures
            r == playing(self@),
    {
        self.session.is_some()
    }

    /// Act on one command: whatever it is, the in-flight session (if any)
    /// is dropped first, so no two sessions ever overlap; the returned step
    /// says what the loop must do next.
    pub fn handle_command(&mut self, command: Command) -> (step: Step)
        requires
            inv(old(self)@),
        ensures
            inv(final(self)@),
            final(self)@ == spec_unload(old(self)@),
            (command matches Command::Load(path) ==> step == Step::OpenStream(path)),
            command is Stop ==> step is Stopped,
            command is Shutdown ==> step is Exit,
    {
        self.session = None;
        match command {
            Command::Load(path) => Step::OpenStream(path),
            Command::Stop => Step::Stopped,
            Command::Shutdown => Step::Exit,
        }
    }

    /// Make a freshly opened session the live one. The answer names the
    /// rate to (re)create the output sink at, exactly when the track's rate
    /// differs from the rate the sink is currently bound to.
    pub fn install_session(&mut self, session: Session) -> (sink: Option<u32>)
        requires
            inv(old(self)@),
            session@.wf(),
        ensures
            inv(final(self)@),
            final(self)@ == spec_install(old(self)@, session@),
            sink == if session@.rate != old(self)@.sink_rate {
                Some(session@.rate)
            } else {
                None::<u32>
            },
    {
        let rate = session.sample_rate();
        let sink = if rate != self.sink_rate {
            Some(rate)
        } else {
            None
        };
        self.session = Some(session);
        self.sink_rate = rate;
        self.frames_played = 0;
        sink
    }

    /// Fill one frame buffer from the live session. Zero frames is the
    /// end-of-track signal: the session is dropped and the engine is idle
    /// again, with no external `Stop` required.
    pub fn fill_frames(&mut self, buffer: &mut Vec<(i16, i16)>) -> (n: usize)
        requires
            inv(old(self)@),
            playing(old(self)@),
            old(buffer)@.len() == BUFFER_SIZE,
        ensures
            inv(final(self)@),
            final(self)@ == spec_play(old(self)@).0,
            n == spec_play(old(self)@).1,
            n == 0 ==> !playing(final(self)@),
            (old(self)@.session matches Some(s) ==> final(buffer)@ == assembled(
                old(buffer)@,
                s,
                pulled_samples(BUFFER_SIZE as int, s.remaining()),
            )),
    {
        let n = match &mut self.session {
            Some(s) => iter_to_buffer(s, buffer),
            None => 0,
        };
        if n == 0 {
            self.session = None;
        }
        let grown = self.frames_played + (n as u64);
        self.frames_played = if grown > MAX_PLAYED_FRAMES {
            MAX_PLAYED_FRAMES
        } else {
            grown
        };
        n
    }

    /// The elapsed position of the current episode in milliseconds:
    /// the frames written so far scaled by the sink's rate.
    pub fn elapsed_ms(&self) -> (r: u64)
        requires
            inv(self@),
        ensures
            r == spec_elapsed_ms(self@),
    {
        self.frames_played * 1000 / (self.sink_rate as u64)
    }

    /// Publish the engine's state into the shared transport record: the
    /// stopped flag mirrors whether a session is alive, and the position is
    /// republished only while playing. Meant to be called with the
    /// transport lock held — it does nothing that blocks.
    pub fn sync_transport(&self, t: &mut Transport)
        requires
            inv(self@),
            old(t).wf(),
        ensures
            final(t).wf(),
            final(t)@ == spec_sync(self@, old(t)@),
    {
        let playing_now = self.is_playing();
        t.set_stopped(!playing_now);
        if playing_now {
            let ms = self.elapsed_ms();
            t.set_current_time(ms);
        }
    }
}

} // verus!
