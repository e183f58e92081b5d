//! The Bulmix theme: it dresses headings, paragraphs and rows in the
//! classes of its style sheet.

use crate::base::component::heading::{Heading, HeadingDisplay, HeadingView};
use crate::base::component::paragraph::{FontSize, Paragraph, ParagraphView};
use crate::base::component::row::{Row, RowView};
use crate::base::module::jquery::{jquery_script, JQuery};
use crate::component::{
    component_mut, ComponentTrait, COMPONENT_HEADING, COMPONENT_PARAGRAPH, COMPONENT_ROW,
};
use crate::html::classes::{ClassesOp, ClassesOpView};
use crate::action::{Action, ActionsRegistry};
use crate::component::{AnyComponent, ComponentView};
use crate::context::{Context, ContextOp, ContextOpView, ContextView};
use crate::handle::Handle;
use crate::html::assets::{AssetView, Favicon, StyleSheet};
use crate::html::markup::Markup;
use crate::base::component::L10n;
use crate::module::{name_from_path, no_actions, ModuleTrait};
use crate::order::Weight;
use crate::page::{before_render_page, render_page_body, render_page_head, Page, PageView};
use crate::theme::{ThemeLayout, ThemeRef, ThemeTrait};
use vstd::prelude::*;

verus! {

/// The handle of the Bulmix theme.
pub const THEME_BULMIX: Handle = 0x8000_0000_0000_3003;

/// The Bulmix theme.
pub struct Bulmix;

/// The classes that the theme gives a heading of a display size.
pub open spec fn bulmix_heading_classes(d: HeadingDisplay) -> Seq<char> {
    "title "@ + (match d {
        HeadingDisplay::XxLarge => "is-1"@,
        HeadingDisplay::Large => "is-2"@,
        HeadingDisplay::Normal => ""@,
        HeadingDisplay::Medium => "is-3"@,
        HeadingDisplay::Small => "is-4"@,
        HeadingDisplay::XxSmall => "is-5"@,
        HeadingDisplay::Subtitle => ""@,
    })
}

/// The class that the theme gives a paragraph of a font size.
pub open spec fn bulmix_size_class(s: FontSize) -> Seq<char> {
    match s {
        FontSize::ExtraLarge => "is-size-1"@,
        FontSize::XxLarge => "is-size-2"@,
        FontSize::XLarge => "is-size-3"@,
        FontSize::Large => "is-size-3"@,
        FontSize::Medium => "is-size-4"@,
        FontSize::Normal => ""@,
        FontSize::Small => "is-size-5"@,
        FontSize::XSmall => "is-size-6"@,
        FontSize::XxSmall => "is-size-7"@,
        FontSize::ExtraSmall => "is-size-7"@,
    }
}

impl ModuleTrait for Bulmix {
    open spec fn spec_handle(&self) -> Handle {
        THEME_BULMIX
    }

    open spec fn spec_path(&self) -> Seq<char> {
        "pagetop::base::theme::Bulmix"@
    }

    open spec fn spec_is_theme(&self) -> bool {
        true
    }

    fn handle(&self) -> (h: Handle) {
        THEME_BULMIX
    }

    fn path(&self) -> (p: &'static str) {
        let p = "pagetop::base::theme::Bulmix";
        assert(p@ == self.spec_path());
        p
    }

    fn name(&self) -> (name: L10n) {
        name_from_path(self.path())
    }

    fn description(&self) -> (description: L10n) {
        L10n::new()
    }

    fn theme(&self) -> (t: Option<ThemeRef>) {
        let t: ThemeRef = &Bulmix;
        Some(t)
    }

    fn dependencies(&self) -> (d: Vec<Handle>) {
        Vec::new()
    }

    fn drop_modules(&self) -> (d: Vec<Handle>) {
        Vec::new()
    }

    fn actions(&self) -> (actions: Vec<Action>) {
        no_actions()
    }
}

impl ThemeTrait for Bulmix {
    /// Headings, paragraphs and rows with the default classes of the theme;
    /// every other component as it is.
    open spec fn prepared(&self, c: ComponentView, cx: ContextView) -> (
        ComponentView,
        ContextView,
    ) {
        match c {
            ComponentView::Heading(h) => (
                ComponentView::Heading(
                    HeadingView {
                        classes: h.classes.altered(
                            ClassesOpView::SetDefault,
                            bulmix_heading_classes(h.display),
                        ),
                        ..h
                    },
                ),
                cx,
            ),
            ComponentView::Paragraph(p) => (
                ComponentView::Paragraph(
                    ParagraphView {
                        classes: p.classes.altered(
                            ClassesOpView::SetDefault,
                            bulmix_size_class(p.font_size),
                        ),
                        ..p
                    },
                ),
                cx,
            ),
            ComponentView::Row(r) => (
                ComponentView::Row(
                    RowView {
                        classes: r.classes.altered(ClassesOpView::SetDefault, "columns"@),
                        ..r
                    },
                ),
                cx,
            ),
            _ => (c, cx),
        }
    }

    fn before_render_component(&self, component: &mut AnyComponent, cx: &mut Context) {
        let handle = component.handle();
        if handle == COMPONENT_HEADING {
            let h = component_mut::<Heading>(component);
            let mut classes = "title ".to_owned();
            classes.append(
                match h.display() {
                    HeadingDisplay::XxLarge => "is-1",
                    HeadingDisplay::Large => "is-2",
                    HeadingDisplay::Normal => "",
                    HeadingDisplay::Medium => "is-3",
                    HeadingDisplay::Small => "is-4",
                    HeadingDisplay::XxSmall => "is-5",
                    HeadingDisplay::Subtitle => "",
                },
            );
            h.alter_classes(ClassesOp::SetDefault, classes.as_str());
        } else if handle == COMPONENT_PARAGRAPH {
            let p = component_mut::<Paragraph>(component);
            let class = match p.font_size() {
                FontSize::ExtraLarge => "is-size-1",
                FontSize::XxLarge => "is-size-2",
                FontSize::XLarge => "is-size-3",
                FontSize::Large => "is-size-3",
                FontSize::Medium => "is-size-4",
                FontSize::Normal => "",
                FontSize::Small => "is-size-5",
                FontSize::XSmall => "is-size-6",
                FontSize::XxSmall => "is-size-7",
                FontSize::ExtraSmall => "is-size-7",
            };
            p.alter_classes(ClassesOp::SetDefault, class);
        } else if handle == COMPONENT_ROW {
            let row = component_mut::<Row>(component);
            row.alter_classes(ClassesOp::SetDefault, "columns");
        }
    }

    fn render_component(&self, component: &AnyComponent, cx: &mut Context) -> (r: Option<Markup>) {
        None
    }
}

impl ThemeLayout for Bulmix {
    /// The page with the icon, the style sheet and the script of the theme.
    open spec fn page_prepared(&self, page: PageView) -> PageView {
        PageView {
            favicon: Some(Some("/theme/favicon.png"@)),
            context: page.context.altered(
                ContextOpView::AddStyleSheet(
                    AssetView {
                        path: "/bulmix/css/bulma.min.css?ver=0.9.3"@,
                        weight: (-99) as Weight,
                    },
                ),
            ).altered(ContextOpView::AddJavaScript(jquery_script())),
            ..page
        }
    }

    fn before_render_page(&self, page: &mut Page) {
        page.alter_favicon(Some(Favicon::new().with_icon("/theme/favicon.png"))).alter_context(
            ContextOp::AddStyleSheet(
                StyleSheet::at("/bulmix/css/bulma.min.css?ver=0.9.3").with_weight(-99),
            ),
        );
        JQuery::add_jquery(page.context());
    }

    fn render_page_body(&self, page: &mut Page, actions: &ActionsRegistry) -> (m: Markup) {
        render_page_body(page, self, actions)
    }

    fn render_page_head(&self, page: &Page) -> (m: Markup) {
        render_page_head(page)
    }
}

} // verus!
