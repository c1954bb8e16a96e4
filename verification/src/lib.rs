//! Frame-classification core for a racing-game capture tool.
//!
//! The library consumes video frames (plain RGB byte buffers), recognized
//! OCR text fragments and timestamps, and drives a state machine that
//! detects the course being played and the finishing position, accumulating
//! them into a per-session match result.

pub mod catalog;
pub mod courses;
pub mod detector;
pub mod detector_course;
pub mod detector_position;
pub mod detector_race_finish;
pub mod detector_total;
pub mod frame;
pub mod word;
pub mod text;
pub mod mogi_result;
pub mod race_result;
pub mod settings;
