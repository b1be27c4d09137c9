//! Cache-first mail synchronisation: the decisions of a multi-account mail
//! client, stated as transitions from a model and an event to the next model
//! and the work to be done outside.

pub mod models;
pub mod text;
pub mod flags;
pub mod folder_map;
pub mod threads;
pub mod types;
pub mod registry;
pub mod sync;
pub mod startup;
pub mod actions;
pub mod watch;
pub mod body;
pub mod navigation;
pub mod accounts;
pub mod update;
pub mod laws;
pub mod mime;
pub mod dnd;
pub mod config;
pub mod keyring;
pub mod status;
pub mod ui;
pub mod setup;
pub mod setup_flow;
pub mod keys;
