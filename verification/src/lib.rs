//! Playback engine for a desktop audio player.
//!
//! The engine accepts `Load`/`Stop` commands through a concurrent queue,
//! keeps at most one decoder session streaming to one output sink, and
//! publishes transport state (stopped flag, current time, cached durations)
//! for an external poller.

pub mod assembler;
pub mod engine;
pub mod laws;
pub mod queue;
pub mod session;
pub mod timefmt;
pub mod transport;

pub use assembler::iter_to_buffer;
pub use assembler::BUFFER_SIZE;
pub use engine::Engine;
pub use engine::Step;
pub use queue::Command;
pub use queue::CommandQueue;
pub use session::DecodeError;
pub use session::Session;
pub use timefmt::millis_to_minutes;
pub use timefmt::to_millis;
pub use transport::Transport;
