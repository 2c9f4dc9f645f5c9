//! Core of a serverless worker node: the component registry, the per-component
//! isolation state machine, line framing for the component pipes, the sliding
//! window statistics, log generations and request routing.
pub mod component;
pub mod docker;
pub mod error;
pub mod isolation;
pub mod logs;
pub mod manager;
pub mod model;
pub mod router;
pub mod pipe;
pub mod stats;
pub mod text;
