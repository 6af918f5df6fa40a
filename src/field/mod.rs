//! Field arithmetic of the proof system.

pub mod crandall;
pub mod extension_field;
