//! What a page shows in the place of a resource that was not found.

use crate::action::ActionsRegistry;
use crate::component::{
    lemma_view_of_kind, AnyComponent, ComponentTrait, ComponentView, COMPONENT_ERROR404,
};
use crate::context::Context;
use crate::handle::Handle;
use crate::html::markup::Markup;
use crate::order::Weight;
use crate::theme::ThemeTrait;
use vstd::prelude::*;

verus! {

/// The component that stands for a resource that was not found.
pub struct Error404;

/// The markup of the component.
pub open spec fn error404_markup() -> Seq<char> {
    "<div><h1>RESOURCE NOT FOUND</h1></div>"@
}

impl Error404 {
    /// The markup of the component.
    pub fn prepare(&self) -> (m: Markup)
        ensures
            m@ == error404_markup(),
    {
        Markup::raw("<div><h1>RESOURCE NOT FOUND</h1></div>")
    }
}

impl ComponentTrait for Error404 {
    open spec fn as_view(&self) -> ComponentView {
        ComponentView::Error404
    }

    open spec fn is_kind(c: ComponentView) -> bool {
        c is Error404
    }

    fn from_any(component: &AnyComponent) -> (r: Option<&Self>) {
        proof {
            lemma_view_of_kind(*component);
        }
        match component {
            AnyComponent::Error404(c) => Some(c),
            _ => None,
        }
    }

    fn from_any_mut(component: &mut AnyComponent) -> (r: Option<&mut Self>) {
        proof {
            lemma_view_of_kind(*component);
        }
        match component {
            AnyComponent::Error404(c) => {
                proof {
                    lemma_view_of_kind(AnyComponent::Error404(*final(c)));
                }
                Some(c)
            },
            _ => None,
        }
    }

    fn new() -> Self {
        Error404
    }

    fn handle(&self) -> (h: Handle) {
        COMPONENT_ERROR404
    }

    fn weight(&self) -> (w: Weight) {
        0
    }

    fn is_renderable(&self, cx: &Context) -> (b: bool) {
        true
    }

    fn default_render<T: ThemeTrait + ?Sized>(
        &mut self,
        cx: &mut Context,
        theme: &T,
        actions: &ActionsRegistry,
    ) -> (m: Markup) {
        self.prepare()
    }
}

} // verus!
