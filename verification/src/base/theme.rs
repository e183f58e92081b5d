//! The stock themes.

pub mod aliner;
pub mod basic;
pub mod bootsier;
pub mod bulmix;
pub mod minimal;

pub use aliner::{Aliner, AlinerTheme};
pub use basic::Basic;
pub use bootsier::Bootsier;
pub use bulmix::Bulmix;
pub use minimal::MinimalTheme;
