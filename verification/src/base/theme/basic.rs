//! The basic theme: the one that is always enabled, and that leaves pages
//! and components as they are.

use crate::action::{Action, ActionsRegistry};
use crate::component::AnyComponent;
use crate::context::Context;
use crate::handle::Handle;
use crate::html::markup::Markup;
use crate::base::component::L10n;
use crate::module::{name_from_path, no_actions, ModuleTrait};
use crate::page::{before_render_page, render_page_body, render_page_head, Page};
use crate::theme::{ThemeLayout, ThemeRef, ThemeTrait};
use vstd::prelude::*;
use crate::module::graph::THEME_BASIC;

verus! {

/// The basic theme.
pub struct Basic;

impl ModuleTrait for Basic {
    open spec fn spec_handle(&self) -> Handle {
        THEME_BASIC
    }

    open spec fn spec_path(&self) -> Seq<char> {
        "pagetop::base::theme::Basic"@
    }

    open spec fn spec_is_theme(&self) -> bool {
        true
    }

    fn handle(&self) -> (h: Handle) {
        THEME_BASIC
    }

    fn path(&self) -> (p: &'static str) {
        let p = "pagetop::base::theme::Basic";
        assert(p@ == self.spec_path());
        p
    }

    fn name(&self) -> (name: L10n) {
        name_from_path(self.path())
    }

    fn description(&self) -> (description: L10n) {
        L10n::new()
    }

    fn theme(&self) -> (t: Option<ThemeRef>) {
        let t: ThemeRef = &Basic;
        Some(t)
    }

    fn dependencies(&self) -> (d: Vec<Handle>) {
        Vec::new()
    }

    fn drop_modules(&self) -> (d: Vec<Handle>) {
        Vec::new()
    }

    fn actions(&self) -> (actions: Vec<Action>) {
        no_actions()
    }
}

impl ThemeTrait for Basic {
    fn before_render_component(&self, component: &mut AnyComponent, cx: &mut Context) {
    }

    fn render_component(&self, component: &AnyComponent, cx: &mut Context) -> (r: Option<Markup>) {
        None
    }
}

impl ThemeLayout for Basic {
    fn before_render_page(&self, page: &mut Page) {
        before_render_page(page);
    }

    fn render_page_body(&self, page: &mut Page, actions: &ActionsRegistry) -> (m: Markup) {
        render_page_body(page, self, actions)
    }

    fn render_page_head(&self, page: &Page) -> (m: Markup) {
        render_page_head(page)
    }
}

} // verus!
