//! Themes: modules that have a say in how components and pages are rendered.

use crate::action::ActionsRegistry;
use crate::component::{AnyComponent, ComponentView};
use crate::context::{Context, ContextView};
use crate::html::markup::Markup;
use crate::page::{Page, PageView};
use vstd::prelude::*;

verus! {

/// A theme, wherever it is defined.
pub type ThemeRef = &'static dyn ThemeTrait;

/// A theme, wherever it is defined.
pub type ThemeStaticRef = ThemeRef;

/// What a theme has to say about components.
pub trait ThemeTrait {
    /// The component and the context after the theme prepared the component.
    open spec fn prepared(&self, c: ComponentView, cx: ContextView) -> (
        ComponentView,
        ContextView,
    ) {
        (c, cx)
    }

    /// The markup that the theme puts in the place of the component's own,
    /// with the context as that leaves it; none where the theme has no say.
    open spec fn overridden(&self, c: ComponentView, cx: ContextView) -> Option<
        (Seq<char>, ContextView),
    > {
        None
    }

    /// Lets the theme change the component before it is rendered. It may not
    /// nest components deeper than they were.
    fn before_render_component(&self, component: &mut AnyComponent, cx: &mut Context)
        ensures
            (final(component)@, final(cx)@) == self.prepared(old(component)@, old(cx)@),
            final(component)@.nesting() <= old(component)@.nesting(),
    ;

    /// Lets the theme render the component in its own way.
    fn render_component(&self, component: &AnyComponent, cx: &mut Context) -> (r: Option<Markup>)
        ensures
            match r {
                Some(m) => self.overridden(component@, old(cx)@) == Some((m@, final(cx)@)),
                None => self.overridden(component@, old(cx)@) is None && final(cx)@ == old(cx)@,
            },
    ;
}

/// What a theme has to say about the page as a whole. A theme that has
/// nothing to say leaves the specifications as they are and calls the stock
/// functions of the page.
pub trait ThemeLayout: ThemeTrait {
    /// The page after the theme prepared it.
    open spec fn page_prepared(&self, page: PageView) -> PageView {
        page.default_prepared()
    }

    /// The body of the page, and the page as rendering the body left it.
    open spec fn page_body(&self, actions: &ActionsRegistry, page: PageView) -> (
        Seq<char>,
        PageView,
    ) {
        page.default_body(self, actions)
    }

    /// The head of the page.
    open spec fn page_head(&self, page: PageView) -> Seq<char> {
        page.default_head()
    }

    /// Lets the theme change the page before it is rendered.
    fn before_render_page(&self, page: &mut Page)
        ensures
            final(page)@ == self.page_prepared(old(page)@),
    ;

    /// Renders the body of the page.
    fn render_page_body(&self, page: &mut Page, actions: &ActionsRegistry) -> (m: Markup)
        ensures
            (m@, final(page)@) == self.page_body(actions, old(page)@),
    ;

    /// Renders the head of the page.
    fn render_page_head(&self, page: &Page) -> (m: Markup)
        ensures
            m@ == self.page_head(page@),
    ;
}

} // verus!
