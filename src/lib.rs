//! Error taxonomy of a BNF toolkit, with verified translation of the parsing
//! engine's failures into descriptive messages.
pub mod engine;
pub mod error;
pub mod message;

pub use error::Error;
