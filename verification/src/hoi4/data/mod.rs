//! The kinds of script items of Hearts of Iron 4.

pub mod dynamic;
pub mod focus;
