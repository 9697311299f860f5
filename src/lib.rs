//! Geometry and sequencing for an on-demand image transformation service:
//! fitting a requested size, placing watermark layers on a canvas, and the
//! stage-by-stage plan that turns a request into encoded bytes.
pub mod commons;
pub mod errors;
pub mod pipeline;
