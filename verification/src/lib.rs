//! Decision logic of a real-time bidder.
pub mod breaker;
pub mod catalog;
pub mod clock;
pub mod config;
pub mod counter;
pub mod events;
pub mod exchange;
pub mod frequency;
pub mod hedge;
pub mod hedge_feedback;
pub mod kafka_incident;
pub mod model;
pub mod notice;
pub mod pacing;
pub mod path;
pub mod pipeline;
pub mod ratio;
pub mod score;
pub mod scoring;
pub mod span;
pub mod targeting;
pub mod telemetry;
pub mod text;
