//! Tables of Europa Universalis 5.

pub mod iterators;
pub mod misc;
pub mod modifs;
