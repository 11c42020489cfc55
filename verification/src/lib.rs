//! A verified core for writing Pebble watch apps in Rust.
//!
//! The watch's system software is reached through requests: the functions here
//! decide which calls to make, with which handles, and what their replies mean,
//! while a thin platform layer performs the calls themselves.
use vstd::prelude::*;

pub mod boxed;
pub mod clicks;
pub mod graphics;
pub mod handle;
pub mod layers;
pub mod memory;
pub mod number_window;
pub mod system;
pub mod window;
pub mod window_stack;

verus! {
} // verus!
