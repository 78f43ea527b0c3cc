//! Core of a continuous internet-radio playback client: the segment queue,
//! the byte ring buffer feeding the decoder, the adaptive pacing controller,
//! the cancellable timer state machine, the retry policy for upstream
//! fetches, and the command routing that ties user input to the two loops.
pub mod assets;
pub mod auth;
pub mod config;
pub mod errors;
pub mod feeder;
pub mod lines;
pub mod fetcher;
pub mod pacing;
pub mod queue;
pub mod quote;
pub mod ring;
pub mod router;
pub mod scheduler;
pub mod stations;
pub mod text;
pub mod timer;
pub mod timestamp;
