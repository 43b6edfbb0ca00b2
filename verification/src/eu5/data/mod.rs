//! The kinds of script items of Europa Universalis 5.

pub mod artist_types;
pub mod building_categories;
pub mod game_concepts;
pub mod insults;
pub mod modifier_type_definitions;
