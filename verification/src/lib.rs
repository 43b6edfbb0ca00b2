//! A verified core of a validator for the script files of Paradox games.
//!
//! The library holds the parts of the validator that decide: which file of a
//! set of mods and game directories wins, how map data files are read and
//! checked, how script blocks are looked up and validated, and which messages
//! are reported for them.

pub mod text;
pub mod token;
pub mod report;
pub mod block;
pub mod imperator;
pub mod pathname;
pub mod game;
pub mod files;
pub mod db;
pub mod datacontext;
pub mod tooltipped;
pub mod nameset;
pub mod modif;
pub mod scopes;
pub mod defines;
pub mod validator;
pub mod benches;
pub mod data;
pub mod ck3;
pub mod eu5;
pub mod hoi4;
