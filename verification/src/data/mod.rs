//! The kinds of script items shared by several games.

pub mod achievements;
pub mod scripted_effects;
pub mod scripted_guis;
pub mod trigger_localization;
