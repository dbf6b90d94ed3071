//! Stock Vision: the verified core of a desktop stock analysis tool.
//!
//! The modules hold the domain model, request building, financial-health
//! scoring, chart windowing and aggregation, the data-source fallback
//! strategy and the application state machine.

pub mod model;
pub mod analysis;
pub mod text;
pub mod state;
pub mod calendar;
pub mod chart;
pub mod sources;
pub mod indicators;
pub mod style;
