//! The stock components.

pub mod button;
pub mod container;
pub mod error404;
pub mod flex;
pub mod form;
pub mod heading;
pub mod hidden;
pub mod html;
pub mod input;
pub mod l10n;
pub mod menu;
pub mod paragraph;
pub mod row;

pub use button::{Button, ButtonType, ButtonView};
pub use container::{Container, ContainerType, ContainerView};
pub use error404::Error404;
pub use form::{Form, FormMethod, FormView};
pub use heading::{Heading, HeadingDisplay, HeadingType, HeadingView};
pub use hidden::{Hidden, HiddenView};
pub use html::{Html, HtmlView};
pub use input::{Input, InputType, InputView};
pub use l10n::{L10n, L10nOp, L10nOpView, L10nView};
pub use menu::{Megamenu, MegamenuView, Submenu, SubmenuView};
pub use paragraph::{FontSize, Paragraph, ParagraphView};
pub use row::{Row, RowView};
