//! Verified core of a desktop music-visualizer shell: the placeholder audio
//! oscillators, the discovery of the visualizer's asset directories, and the
//! decisions of the window event loop.
//!
//! Nothing here touches the window system, the file system or floating
//! point: callers hand in plain values and act on what comes back.

pub mod assets;
pub mod audio;
pub mod events;
