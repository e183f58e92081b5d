//! The stock modules.

pub mod admin;
pub mod jquery;
pub mod mdbook;
pub mod node;

pub use admin::Admin;
pub use jquery::JQuery;
pub use mdbook::MdBook;
pub use node::Node;
