//! A component that holds markup as it is.

use crate::component::{
    lemma_view_of_kind, AnyComponent, ComponentTrait, ComponentView, COMPONENT_HTML,
};
use crate::context::Context;
use crate::handle::Handle;
use crate::html::markup::Markup;
use crate::order::Weight;
use crate::action::ActionsRegistry;
use crate::theme::ThemeTrait;
use vstd::prelude::*;

verus! {

/// A `Html` as a mathematical value.
pub struct HtmlView {
    pub html: Seq<char>,
}

/// A component that is markup.
pub struct Html {
    pub(crate) html: Markup,
}

impl View for Html {
    type V = HtmlView;

    closed spec fn view(&self) -> HtmlView {
        HtmlView { html: self.html@ }
    }
}

impl Html {
    /// The component that shows `html`.
    pub fn with(html: Markup) -> (r: Self)
        ensures
            r@ == (HtmlView { html: html@ }),
    {
        Html { html }
    }

    pub fn alter_html(&mut self, html: Markup) -> (r: &mut Self)
        ensures
            r@ == (HtmlView { html: html@ }),
            *final(self) == *final(r),
    {
        self.html = html;
        self
    }

    pub fn with_html(self, html: Markup) -> (r: Self)
        ensures
            r@ == (HtmlView { html: html@ }),
    {
        Html { html }
    }

    pub fn html(&self) -> (r: &Markup)
        ensures
            r@ == self@.html,
    {
        &self.html
    }

    /// The markup of the component.
    pub fn prepare(&self) -> (m: Markup)
        ensures
            m@ == self@.html,
    {
        self.html.duplicate()
    }
}

impl ComponentTrait for Html {
    open spec fn as_view(&self) -> ComponentView {
        ComponentView::Html(self@)
    }

    open spec fn is_kind(c: ComponentView) -> bool {
        c is Html
    }

    fn from_any(component: &AnyComponent) -> (r: Option<&Self>) {
        proof {
            lemma_view_of_kind(*component);
        }
        match component {
            AnyComponent::Html(c) => Some(c),
            _ => None,
        }
    }

    fn from_any_mut(component: &mut AnyComponent) -> (r: Option<&mut Self>) {
        proof {
            lemma_view_of_kind(*component);
        }
        match component {
            AnyComponent::Html(c) => {
                proof {
                    lemma_view_of_kind(AnyComponent::Html(*final(c)));
                }
                Some(c)
            },
            _ => None,
        }
    }

    fn new() -> (r: Self)
        ensures
            r@ == (HtmlView { html: Seq::empty() }),
    {
        Html { html: Markup::new() }
    }

    fn handle(&self) -> (h: Handle) {
        COMPONENT_HTML
    }

    fn weight(&self) -> (w: Weight) {
        0
    }

    fn is_renderable(&self, cx: &Context) -> (b: bool) {
        true
    }

    fn default_render<T: ThemeTrait + ?Sized>(
        &mut self,
        cx: &mut Context,
        theme: &T,
        actions: &ActionsRegistry,
    ) -> (m: Markup) {
        self.prepare()
    }
}

} // verus!
