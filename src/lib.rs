//! Core of a launcher for third-party Steam Deck tools: the tool manifest,
//! the remote resources it points at, and the steps of an installation.

pub mod catalog;
pub mod install;
pub mod manifest;
pub mod remote;
pub mod text;
