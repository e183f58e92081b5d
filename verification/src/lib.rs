//! Composition core of a server-side page framework: modules, themes, actions
//! and components are registered, ordered and combined into a page.

pub mod action;
pub mod base;
pub mod component;
pub mod config;
pub mod context;
pub mod handle;
pub mod html;
pub mod locale;
pub mod module;
pub mod order;
pub mod page;
pub mod text;
pub mod theme;
