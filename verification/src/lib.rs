//! Scheduling core of a timed slideshow for figure-drawing practice.
//!
//! A session cycles through a shuffled list of image paths on a nested,
//! user-defined schedule of `(repeat_count, duration_seconds)` blocks.  The
//! library owns the state machine (stopped / paused / playing), the exact
//! remaining-time accounting across pause and resume, the wraparound and
//! reshuffle rules of the image sequence, and the reversible grayscale and
//! mirror transforms.  The surrounding application supplies wall-clock
//! elapsed times, directory listings and decoded images, and renders what
//! the library exposes.

pub mod controllers;
pub mod data;
pub mod delegate;
pub mod schedule;
pub mod sequencer;
pub mod transform;
