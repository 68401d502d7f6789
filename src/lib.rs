//! Verified core of an interactive Mandelbrot viewer: the pixel size of the
//! viewport with the aspect ratios of its visible rectangle, its redraw flag,
//! and the controller that turns pointer events into camera actions.
//!
//! The complex-plane arithmetic of the camera is single-precision float
//! arithmetic; it and everything that talks to the GPU or the window system
//! live in the application crate, which drives this library.
pub mod controller;
pub mod viewport;
