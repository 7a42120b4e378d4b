//! Decision logic of an emotion-monitoring pipeline for chat messages:
//! typed extraction from model replies, threshold alerts, daily per-user
//! aggregation, calendar rules, and archival key planning.
pub mod score;
pub mod scoring;
pub mod text;
pub mod json;
pub mod extraction;
pub mod calendar;
pub mod events;
pub mod aggregation;
pub mod archival;
pub mod prompts;
pub mod tools;
