//! A command-driven audio playback engine and the remote-control bridge that
//! drives it, as verified state machines.
//!
//! The engine and the bridge never touch a device, a file or a socket: each
//! step takes the current clock readings and the latest observation of the
//! outside world as plain values, and answers with the new state and the
//! outside work that has to be performed.

pub mod bridge;
pub mod brightness;
pub mod clock;
pub mod crypto;
pub mod domain;
pub mod engine;
pub mod laws;
pub mod player;
pub mod server;
pub mod shell;
pub mod supervisor;
pub mod text;
