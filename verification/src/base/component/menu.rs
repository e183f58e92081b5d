//! Menus and what they are made of.

pub mod item;
pub mod megamenu;
pub mod submenu;

pub use item::{Item, ItemType, ItemTypeView, ItemView};
pub use megamenu::{Megamenu, MegamenuView};
pub use submenu::{Submenu, SubmenuView};
