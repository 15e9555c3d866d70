//! Parsing of fixed-width integers from sequences of characters or bytes,
//! with every rejection classified.

pub mod parser;
