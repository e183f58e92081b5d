//! The Aliner theme, as a module of its own and as a stock theme.

use crate::action::{Action, ActionsRegistry};
use crate::component::AnyComponent;
use crate::context::{Context, ContextOp, ContextOpView};
use crate::handle::Handle;
use crate::html::assets::{AssetView, Favicon, StyleSheet};
use crate::html::markup::Markup;
use crate::base::component::L10n;
use crate::module::{name_from_path, no_actions, ModuleTrait};
use crate::order::Weight;
use crate::page::{before_render_page, render_page_body, render_page_head, Page, PageView};
use crate::theme::{ThemeLayout, ThemeRef, ThemeTrait};
use vstd::prelude::*;

verus! {

/// The handle of the Aliner theme.
pub const THEME_ALINER: Handle = 0x8000_0000_0000_3002;

/// The handle of the stock Aliner theme.
pub const THEME_ALINER_STOCK: Handle = 0x8000_0000_0000_3006;

/// The Aliner theme, a module of its own.
pub struct Aliner;

impl ModuleTrait for Aliner {
    open spec fn spec_handle(&self) -> Handle {
        THEME_ALINER
    }

    open spec fn spec_path(&self) -> Seq<char> {
        "pagetop_aliner::Aliner"@
    }

    open spec fn spec_is_theme(&self) -> bool {
        true
    }

    fn handle(&self) -> (h: Handle) {
        THEME_ALINER
    }

    fn path(&self) -> (p: &'static str) {
        let p = "pagetop_aliner::Aliner";
        assert(p@ == self.spec_path());
        p
    }

    fn name(&self) -> (name: L10n) {
        name_from_path(self.path())
    }

    fn description(&self) -> (description: L10n) {
        L10n::new()
    }

    fn theme(&self) -> (t: Option<ThemeRef>) {
        let t: ThemeRef = &Aliner;
        Some(t)
    }

    fn dependencies(&self) -> (d: Vec<Handle>) {
        Vec::new()
    }

    fn drop_modules(&self) -> (d: Vec<Handle>) {
        Vec::new()
    }

    fn actions(&self) -> (actions: Vec<Action>) {
        no_actions()
    }
}

impl ThemeTrait for Aliner {
    fn before_render_component(&self, component: &mut AnyComponent, cx: &mut Context) {
    }

    fn render_component(&self, component: &AnyComponent, cx: &mut Context) -> (r: Option<Markup>) {
        None
    }
}

impl ThemeLayout for Aliner {
    /// The page with the stock icon and the style sheet of the theme.
    open spec fn page_prepared(&self, page: PageView) -> PageView {
        PageView {
            favicon: Some(Some("/theme/favicon.ico"@)),
            context: page.context.altered(
                ContextOpView::AddStyleSheet(
                    AssetView { path: "/aliner/css/styles.css"@, weight: (-99) as Weight },
                ),
            ),
            ..page
        }
    }

    fn before_render_page(&self, page: &mut Page) {
        page.alter_favicon(Some(Favicon::new().with_icon("/theme/favicon.ico"))).alter_context(
            ContextOp::AddStyleSheet(StyleSheet::at("/aliner/css/styles.css").with_weight(-99)),
        );
    }

    fn render_page_body(&self, page: &mut Page, actions: &ActionsRegistry) -> (m: Markup) {
        render_page_body(page, self, actions)
    }

    fn render_page_head(&self, page: &Page) -> (m: Markup) {
        render_page_head(page)
    }
}

/// The Aliner theme as it comes with the framework.
pub struct AlinerTheme;

impl AlinerTheme {
    /// The short name of the theme.
    pub fn name(&self) -> (n: &'static str)
        ensures
            n@ == "aliner"@,
    {
        "aliner"
    }

    /// The name of the theme as it is shown.
    pub fn fullname(&self) -> (n: String)
        ensures
            n@ == "Aliner"@,
    {
        "Aliner".to_owned()
    }
}

impl ModuleTrait for AlinerTheme {
    open spec fn spec_handle(&self) -> Handle {
        THEME_ALINER_STOCK
    }

    open spec fn spec_path(&self) -> Seq<char> {
        "pagetop::base::theme::AlinerTheme"@
    }

    open spec fn spec_is_theme(&self) -> bool {
        true
    }

    fn handle(&self) -> (h: Handle) {
        THEME_ALINER_STOCK
    }

    fn path(&self) -> (p: &'static str) {
        let p = "pagetop::base::theme::AlinerTheme";
        assert(p@ == self.spec_path());
        p
    }

    fn name(&self) -> (name: L10n) {
        name_from_path(self.path())
    }

    fn description(&self) -> (description: L10n) {
        L10n::new()
    }

    fn theme(&self) -> (t: Option<ThemeRef>) {
        let t: ThemeRef = &AlinerTheme;
        Some(t)
    }

    fn dependencies(&self) -> (d: Vec<Handle>) {
        Vec::new()
    }

    fn drop_modules(&self) -> (d: Vec<Handle>) {
        Vec::new()
    }

    fn actions(&self) -> (actions: Vec<Action>) {
        no_actions()
    }
}

impl ThemeTrait for AlinerTheme {
    fn before_render_component(&self, component: &mut AnyComponent, cx: &mut Context) {
    }

    fn render_component(&self, component: &AnyComponent, cx: &mut Context) -> (r: Option<Markup>) {
        None
    }
}

impl ThemeLayout for AlinerTheme {
    /// The page with the style sheet of the theme.
    open spec fn page_prepared(&self, page: PageView) -> PageView {
        PageView {
            context: page.context.altered(
                ContextOpView::AddStyleSheet(
                    AssetView { path: "/aliner/css/styles.css"@, weight: (-99) as Weight },
                ),
            ),
            ..page
        }
    }

    fn before_render_page(&self, page: &mut Page) {
        page.alter_context(
            ContextOp::AddStyleSheet(StyleSheet::at("/aliner/css/styles.css").with_weight(-99)),
        );
    }

    fn render_page_body(&self, page: &mut Page, actions: &ActionsRegistry) -> (m: Markup) {
        render_page_body(page, self, actions)
    }

    fn render_page_head(&self, page: &Page) -> (m: Markup) {
        render_page_head(page)
    }
}

} // verus!
