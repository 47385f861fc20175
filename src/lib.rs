//! A household tracker: people, their parent/child relations, star-chart reward
//! trackers and calendar events, held in a relational store whose operations are
//! verified against a model of its tables.
mod clock;
pub mod configuration;
pub mod entity;
pub mod laws;
pub mod seq_facts;
pub mod store;
pub mod types;

pub use store::helpers;
