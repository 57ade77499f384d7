//! Japanese grammar.

pub mod verb;
