//! The components, themes and modules that come with the framework.

pub mod component;
pub mod module;
pub mod theme;
