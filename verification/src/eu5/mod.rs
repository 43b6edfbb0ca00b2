//! Items and tables of Europa Universalis 5.

pub mod data;
pub mod modif;
pub mod item;
pub mod events;
pub mod tables;
