//! The generation pipeline.

pub mod classify;
pub mod content;
pub mod engine;
pub mod feeds;
pub mod generator;
pub mod groups;
pub mod html;
pub mod indexes;
pub mod order;
pub mod pages;
pub mod pagination;
pub mod search;
pub mod server;
pub mod site;
pub mod watch;

pub use engine::Engine;
pub use generator::HtmlGenerator;
pub use search::{SearchIndexGenerator, SearchIndexItem};
pub use server::Server;
