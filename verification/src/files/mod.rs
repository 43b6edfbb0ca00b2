//! The files of the game and the mods: which of them are loaded, in what
//! order, and their contents.

pub mod filecontent;
pub mod fileset;
pub mod order;
pub mod fileset_builder;
