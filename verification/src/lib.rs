//! Delayed video feedback: the verified core of a camera-to-screen delay line.
//!
//! The library holds the decisions of the application: which delay is selected and how it
//! moves, how the selected delay is shown, which recorded frame is played back, and how the
//! picture rotates. Camera capture, rendering and the touchscreen interface drive these
//! decisions from outside.
pub mod config;
pub mod delay;
pub mod pipelines;
pub mod text;
pub mod ui;
pub mod video;
pub mod video_buffer;
