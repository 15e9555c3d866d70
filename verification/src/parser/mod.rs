//! Integer parsing over element sequences.

pub mod accumulator;
pub mod bench;
pub mod element;
pub mod grammar;
pub mod laws;
pub mod model;
pub mod native;
pub mod utils;

pub use grammar::parse_identifier;
