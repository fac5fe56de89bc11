//! Signature analysis and code emission for CQRS / event-sourcing handler
//! annotations: a plain two-argument handler is turned into a dispatch
//! capability implementation plus a registration routine.
pub mod model;
pub mod resolve;
pub mod error;
pub mod extract;
pub mod render;
pub mod strategy;
pub mod emit;
pub mod laws;
