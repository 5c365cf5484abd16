//! Obstacle-avoidance front end: fuses a dense stereo depth frame with a
//! single-point ultrasonic range reading and decides, frame by frame, whether
//! an obstacle is dangerously close.
//!
//! Depths are integers in one calibrated unit throughout (millimetres in the
//! application); a frame cell may be a hole (`None`) where stereo matching
//! found no depth.

pub mod frame;
pub mod baseline;
pub mod detector;
pub mod fusion;
pub mod cycle;
