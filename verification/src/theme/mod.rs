//! What templates can call and what they are told about plugins.

pub mod renderer;
