//! The catalogs: what the remote list offers, what the settings keep, and
//! the list of files that make up the modding API.

pub mod api;
pub mod local;
pub mod remote;
