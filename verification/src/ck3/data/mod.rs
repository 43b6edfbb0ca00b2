//! The kinds of script items of Crusader Kings 3.

pub mod artifacts;
pub mod casusbelli;
pub mod character_templates;
pub mod confederations;
pub mod connection_arrows;
pub mod court_scene;
pub mod doctrines;
pub mod domiciles;
pub mod dynasty_legacies;
pub mod government;
pub mod graphical_unit_types;
pub mod greatprojects;
pub mod houses;
pub mod ruler_objectives;
pub mod schemes;
pub mod scripted_costs;
pub mod table_styles;
