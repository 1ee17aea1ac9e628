//! A window-to-GPU bootstrap: turns a windowing system's native handle into
//! the platform data a GPU backend initialises from, and gates the backend's
//! init / reset / draw / shutdown calls on the window's lifecycle.
pub mod error;
pub mod lifecycle;
pub mod surface;
