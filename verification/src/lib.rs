//! Blurred lock-screen backdrops.
//!
//! A screen capture (or a still image) is shrunk to a quarter of the screen
//! in each direction, blurred, grown back to the size of the screen and
//! handed to a screen locker as raw RGB bytes. This crate holds the rules of
//! that pipeline: the pixel buffer and its invariant, the decoding of native
//! pixel values through channel masks, the resampling steps, the acceptance
//! of a blurred frame, and the command line of the locker.

pub mod buffer;
pub mod capture;
pub mod failure;
pub mod geometry;
pub mod locker;
pub mod pipeline;
pub mod resize;
