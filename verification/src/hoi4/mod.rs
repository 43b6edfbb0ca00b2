//! Items and effects of Hearts of Iron 4.

pub mod data;
pub mod modif;
pub mod effect_validation;
