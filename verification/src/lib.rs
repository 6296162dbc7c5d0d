//! Display-driver adaptation layer for an embedded GUI engine.
//!
//! The engine renders into a staging buffer and asks the driver to flush one
//! rectangular region at a time. This crate turns such a request into the
//! row-major sequence of coloured pixels that a render target accepts, guards
//! the staging buffer against being handed out twice, and reads the engine's
//! answers as typed handles and errors.
//!
//! The engine itself is not part of the crate. Where a function has to ask
//! the engine, or has to draw, it takes the operation as a function value,
//! and its contract says what that function is called with and what follows
//! from each answer.
//!
//! - [`color`]: the engine's packed colour and the abstract colours it
//!   converts to
//! - [`geometry`]: positions, pixels and regions
//! - [`pixels`]: the pixel sequence of a flush request
//! - [`draw_buffer`]: the staging buffer and its single acquisition
//! - [`sync`]: the lock around a shared render target
//! - [`display`]: drivers, registration and the flush callbacks
//! - [`functions`]: the questions asked of the engine
//! - [`handle`], [`obj`], [`label`]: engine objects
//! - [`analysis`]: parameters of the engine's C functions

pub mod analysis;
pub mod color;
pub mod display;
pub mod draw_buffer;
pub mod functions;
pub mod geometry;
pub mod handle;
pub mod label;
pub mod obj;
pub mod pixels;
pub mod sync;
