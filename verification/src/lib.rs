//! Parsing of algebraic chess notation: a scanner that turns raw text into a
//! bounded sequence of notation symbols, and a grammar classifier that maps
//! symbol sequences to typed move descriptions.

pub mod game;
pub mod notation;
