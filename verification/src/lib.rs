//! Remote control for a running terminal session.
//!
//! A long-lived server process owns a shell wrapped in a pseudo-terminal and
//! listens on a named pipe; short-lived client invocations deliver command
//! bytes into that shell through the pipe. This crate holds the session's
//! logic: the command-channel lifecycle (`fifo`), the per-event decisions of
//! the I/O multiplexer and signal bridge (`session`), the window-size model
//! (`size`), and small helpers (`util`). Process spawning, raw terminal mode
//! and thread plumbing live with the binary that drives the session.

pub mod fifo;
pub mod session;
pub mod size;
pub mod util;

pub use fifo::client;
pub use fifo::PipeError;
pub use size::get_terminal_size;
pub use size::Size;
pub use size::Winsize;
