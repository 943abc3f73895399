//! The data model: documents, taxonomies and configuration.

pub mod config;
pub mod types;
pub mod value;

pub use config::Config;
pub use types::{
    Category, GeneratorResult, Locals, Page, Post, RenderData, SiteConfig, SiteLocals, Tag,
    Timestamp,
};
pub use value::{Number, Value};
