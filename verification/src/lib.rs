//! A verified engine for UIS, a declarative language for user interfaces:
//! its lexer, its address scheme and the registry of components and properties.

pub mod text;
pub mod units;
pub mod address;
pub mod token;
pub mod lexer;
pub mod registry;
pub mod lookup;
pub mod creation;
pub mod parser;
pub mod laws;
