//! The integer side of a Monte Carlo path tracer: render settings and the
//! per-pixel random streams they key, the RGBA framebuffer and where each
//! pixel lands in it, the decision that bounds how far a path bounces, and the
//! bouncing box of the preview window.
pub mod bounce;
pub mod framebuffer;
pub mod path;
pub mod settings;
