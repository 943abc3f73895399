//! A static-site build pipeline driven by content plugins.
//!
//! The crate holds the plugin host, the content store with its
//! classification stage, and the planning of every emitted artefact.
//! All of it is stated over mathematical models and proved.

pub mod cli;
pub mod generation;
pub mod models;
pub mod plugins;
pub mod text;
pub mod theme;
pub mod utils;
