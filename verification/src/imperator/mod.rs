//! Imperator: Rome specific data.

pub mod provinces;
pub mod data;
pub mod modif;
