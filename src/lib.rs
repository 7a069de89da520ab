//! Electrical topology of a substation: components with fixed terminals,
//! wired to nodes, with per-component switch position and measurement state.

pub mod component;
pub mod error;
pub mod laws;
pub mod measurement;
pub mod node;
pub mod position;
pub mod substation;
pub mod terminal;
