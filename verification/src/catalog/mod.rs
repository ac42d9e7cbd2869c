//! The campaign catalog: what can be bid with, and how it is found.
pub mod bitmap;
pub mod campaign_catalog;
pub mod loader;
pub mod types;
