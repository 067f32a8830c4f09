//! Verified core of a terminal manager for the Mihomo proxy core.
pub mod text;
pub mod models;
pub mod parser;
pub mod i18n;
pub mod theme;
pub mod settings;
pub mod sort;
pub mod profiles;
pub mod profile_meta;
pub mod api_models;
pub mod state;
pub mod update;
pub mod mihomo_core;
pub mod api;
pub mod commands;
pub mod layout;
pub mod mouse;
