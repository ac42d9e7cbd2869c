//! Data that flows through the pipeline.
pub mod candidate;
pub mod context;
pub mod openrtb;
