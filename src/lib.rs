//! Lookup tables, GPU parameter block and per-frame state machine of a
//! procedural noise texture generator.

pub mod tables;
pub mod params;
pub mod texture_simulator;

pub use tables::{create_gradient_buf, create_permulation_buf};
pub use texture_simulator::TextureSimulator;
