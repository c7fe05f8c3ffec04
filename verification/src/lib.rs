//! Supervision core of a desktop application shell: a handle store for the
//! auxiliary processes it launches, the start/stop decisions of the sidecar
//! supervisor, the line-oriented output relay with its tunnel-URL extractor,
//! the window-label registry, and the exit-time lifecycle guard.
//!
//! Everything here is plain decision logic over plain values. The shell
//! around it performs the actual process spawning, killing, window creation
//! and event publication, and feeds the outcomes back in.

pub mod extract;
pub mod lifecycle;
pub mod relay;
pub mod store;
pub mod supervisor;
pub mod text;
pub mod window;
