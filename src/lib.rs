//! Screen capture on Wayland compositors that offer the wlr screencopy protocol.
//!
//! The library holds the decisions of a capture run: which globals to bind, how
//! output announcements build the output catalog, the per-output capture state
//! machine with its timeout, the size of the shared buffer, and the decoding of
//! the raw bytes that the compositor wrote. The connection itself, the shared
//! memory file and the blocking dispatch are driven by the caller.

pub mod cli;
pub mod config;
pub mod error;
pub mod frame;
pub mod manager;
pub mod output;
pub mod pixel;
pub mod state;
