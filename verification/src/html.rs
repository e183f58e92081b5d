//! Values that components are made of: markup, identifiers, attribute values
//! and class lists.

pub mod assets;
pub mod classes;
pub mod markup;
pub mod opt_id;
pub mod opt_string;

pub use assets::{AssetView, Favicon, JavaScript, StyleSheet};
pub use classes::{Classes, ClassesOp, ClassesOpView, ClassesView};
pub use markup::Markup;
pub use opt_id::OptionId;
pub use opt_string::OptionString;
use vstd::prelude::*;

verus! {

/// A value for an attribute.
pub type AttributeValue = OptionString;

/// A value for an `id` attribute.
pub type IdentifierValue = OptionId;

/// A value for a `name` attribute.
pub type OptionName = OptionId;

/// A list of classes.
pub type OptionClasses = Classes;

} // verus!
