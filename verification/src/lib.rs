//! Core of a mod manager: what is installed, what is enabled, and what to do
//! on disk to change that.

pub mod catalog;
pub mod change;
pub mod detect;
pub mod download;
pub mod error;
pub mod inspect;
pub mod install;
pub mod lifecycle;
pub mod manual;
pub mod mod_links;
pub mod modding_api;
pub mod persist;
pub mod platform;
pub mod profile;
pub mod progress;
pub mod settings;
pub mod state;
pub mod text;
