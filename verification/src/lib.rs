//! Boundary layer between a dynamically typed host and the tract inference
//! engine.
//!
//! The crate marshals numeric tensors across the host boundary
//! ([`buffer::CoreTensor`]), parses declarative shape/dtype constraints
//! ([`fact`]), and drives the load / configure / resolve / run pipeline over
//! the engine ([`pipeline`]). The engine itself (graph parsing, shape
//! inference, optimization, kernels) is reached only through the trusted
//! declarations in [`engine`].

pub mod buffer;
pub mod cast;
pub mod engine;
pub mod error;
pub mod fact;
pub mod kind;
pub mod model;
pub mod pipeline;
