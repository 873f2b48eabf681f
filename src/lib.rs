//! Core logic of a tile-map adventure: a permission-gated command console and
//! scripted NPC encounters, both acting on one shared game state.
pub mod alice;
pub mod commands;
pub mod cutscene;
pub mod lemmas;
pub mod map;
pub mod npcs;
pub mod session;
pub mod state;
pub mod text;
pub mod ui;
