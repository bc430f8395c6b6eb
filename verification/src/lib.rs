//! The logic of `mii-sound`, a small text-to-speech service: the wire protocol
//! between client, broker and worker, the batching scheduler, the streaming
//! WAV pipeline and the rules of the command line.
//!
//! Sockets, processes, clocks and the model itself live outside this crate;
//! they hand plain values in and carry out what comes back.

pub mod buffer;
pub mod cli;
pub mod client;
pub mod duration;
pub mod exit;
pub mod json;
pub mod le;
pub mod proto;
pub mod sample;
pub mod server;
pub mod synth;
pub mod text;
pub mod transport;
pub mod wav;
pub mod worker;
