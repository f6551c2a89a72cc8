//! Army setups of the Total War games: reading them out of folders, telling
//! their factions from their names, keeping them in catalogs by name,
//! searching them, and planning the copies that bring one into a game.
//!
//! Nothing here touches the disk. What was read from disk comes in as plain
//! values, and what is to be written goes out as a plan of copies.

pub mod advanced_search_container;
pub mod army_build;
pub mod army_setups_folder;
pub mod army_setups_manager;
pub mod ca_game;
pub mod catalog;
pub mod central_panel_state;
pub mod factions;
pub mod misc_folders;
pub mod paths;
pub mod text;
pub mod ymd_hms_dash_format;
