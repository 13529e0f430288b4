//! Progress display for a repository clone.
//!
//! A clone reports its progress in two streams: the network transfer (objects
//! received and indexed, deltas resolved) and the checkout of the working tree.
//! This library keeps the latest reading of each stream and turns every new
//! reading into the text of one status line that a terminal rewrites in place.
//! It performs no input or output itself: each call returns the text to write,
//! and the caller writes and flushes it.
//!
//! - [`snapshot`]: the readings of the two streams and their percentages.
//! - [`text`]: numbers as right-aligned decimal text.
//! - [`render`]: the status line for the latest readings, and the one line
//!   break that separates the transfer display from the display of delta
//!   resolution.
//! - [`operation`]: one clone from start to end, with the text that closes
//!   the display after success or failure.

pub mod operation;
pub mod render;
pub mod snapshot;
pub mod text;
