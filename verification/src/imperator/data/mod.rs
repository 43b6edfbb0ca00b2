//! The kinds of script items of Imperator: Rome.

pub mod laws;
