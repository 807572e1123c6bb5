//! Orientation feedback for a board with a three-axis accelerometer and four
//! indicator lights: raw samples are smoothed, classified into one of seven
//! attitudes, and each attitude lights a fixed pattern.

pub mod orientation;
pub mod indicator;
pub mod controller;
