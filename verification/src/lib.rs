//! A background music-playback daemon library: runtime path resolution, the
//! now-playing store codec, the one-shot command protocol, the daemon's
//! playback state machine, and the client dispatcher's decision logic.
//!
//! All I/O (sockets, files, the audio device) lives in the surrounding
//! application; this crate holds the decisions and the data, verified.

pub mod dispatch;
pub mod errors;
pub mod laws;
pub mod protocol;
pub mod paths;
pub mod session;
pub mod store;
