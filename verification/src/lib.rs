//! A Shadertoy-style canvas helper, modelled as a verified state machine.
//!
//! The library owns the logic of the renderer: assembling the fragment
//! program from a fixed prefix and suffix around a caller-supplied body,
//! mapping driver outcomes to errors, installing a program transactionally,
//! and emitting the exact sequence of drawing commands for one frame.
//! The host environment performs the graphics calls and reports their
//! outcomes back as plain values.

pub mod canvas;
pub mod gl;
pub mod source;
