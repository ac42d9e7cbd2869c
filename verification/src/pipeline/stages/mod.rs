//! The stages of the bid pipeline.
pub mod budget_pacing;
pub mod candidate_limit;
pub mod candidate_retrieval;
pub mod freq_cap;
pub mod ranking;
pub mod request_validation;
pub mod response_build;
pub mod scoring;
pub mod user_enrichment;
