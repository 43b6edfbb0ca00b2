//! Items of Crusader Kings 3.

pub mod data;
pub mod modif;
