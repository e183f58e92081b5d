//! A hidden field of a form.

use crate::action::{ActionsRegistry, ComponentChange, ComponentChangeView};
use crate::component::{
    lemma_view_of_kind, AnyComponent, ComponentTrait, ComponentView, Renderable, COMPONENT_HIDDEN,
};
use crate::context::Context;
use crate::handle::Handle;
use crate::html::classes::Classes;
use crate::html::markup::{opt_attr, opt_view, Markup};
use crate::html::opt_id::{identifier, non_empty, OptionId};
use crate::html::opt_string::OptionString;
use crate::order::Weight;
use crate::text::trimmed;
use crate::theme::ThemeTrait;
use vstd::prelude::*;

verus! {

/// A `Hidden` as a mathematical value.
pub struct HiddenView {
    pub weight: Weight,
    pub name: Option<Seq<char>>,
    pub value: Option<Seq<char>>,
}

/// `prefix` in front of `name`, if there is a name.
pub open spec fn prefixed(prefix: Seq<char>, name: Option<Seq<char>>) -> Option<Seq<char>> {
    match name {
        Some(n) => Some(prefix + n),
        None => None,
    }
}

/// `prefix` in front of `name`, if there is a name.
pub fn prefix_name(prefix: &str, name: &Option<String>) -> (r: Option<String>)
    ensures
        opt_view(r) == prefixed(prefix@, opt_view(*name)),
{
    match name {
        Some(n) => {
            let mut s = prefix.to_owned();
            s.append(n.as_str());
            Some(s)
        },
        None => None,
    }
}

impl HiddenView {
    pub open spec fn markup(self, langid: Seq<char>) -> Seq<char> {
        "<input type=\"hidden\""@ + opt_attr("id"@, prefixed("value-"@, self.name)) + opt_attr(
            "name"@,
            self.name,
        ) + opt_attr("value"@, self.value) + ">"@
    }

    /// The component as `Hidden::new` makes it.
    pub open spec fn initial() -> HiddenView {
        HiddenView {
            weight: 0,
            name: None,
            value: None,
        }
    }

    /// The component after `change`; a change it has no use for leaves it as it is.
    pub open spec fn changed(self, change: ComponentChangeView) -> HiddenView {
        match change {
            ComponentChangeView::Id(id) => self,
            ComponentChangeView::Classes(op, classes) => self,
            ComponentChangeView::Weight(w) => HiddenView { weight: w, ..self },
            ComponentChangeView::Renderable(r) => self,
        }
    }
}

/// A hidden field of a form.
pub struct Hidden {
    pub(crate) weight: Weight,
    pub(crate) name: OptionId,
    pub(crate) value: OptionString,
}

impl View for Hidden {
    type V = HiddenView;

    closed spec fn view(&self) -> HiddenView
    {
        HiddenView {
            weight: self.weight,
            name: self.name@,
            value: self.value@,
        }
    }
}

impl Hidden {
    /// A hidden field with this name and this value.
    pub fn set(name: &str, value: &str) -> (r: Self)
        ensures
            r@ == (HiddenView {
                name: non_empty(identifier(name@)),
                value: non_empty(trimmed(value@)),
                ..HiddenView::initial()
            }),
    {
        <Hidden as ComponentTrait>::new().with_name(name).with_value(value)
    }

    pub fn alter_weight(&mut self, value: Weight) -> (r: &mut Self)
        ensures
            r@ == (HiddenView { weight: value, ..old(self)@ }),
            *final(self) == *final(r),
    {
        self.weight = value;
        self
    }

    pub fn with_weight(self, value: Weight) -> (r: Self)
        ensures
            r@ == (HiddenView { weight: value, ..self@ }),
    {
        let mut c = self;
        c.alter_weight(value);
        c
    }

    pub fn alter_name(&mut self, name: &str) -> (r: &mut Self)
        ensures
            r@ == (HiddenView { name: non_empty(identifier(name@)), ..old(self)@ }),
            *final(self) == *final(r),
    {
        self.name.alter_value(name);
        self
    }

    pub fn with_name(self, name: &str) -> (r: Self)
        ensures
            r@ == (HiddenView { name: non_empty(identifier(name@)), ..self@ }),
    {
        let mut c = self;
        c.alter_name(name);
        c
    }

    pub fn alter_value(&mut self, value: &str) -> (r: &mut Self)
        ensures
            r@ == (HiddenView { value: non_empty(trimmed(value@)), ..old(self)@ }),
            *final(self) == *final(r),
    {
        self.value.alter_value(value);
        self
    }

    pub fn with_value(self, value: &str) -> (r: Self)
        ensures
            r@ == (HiddenView { value: non_empty(trimmed(value@)), ..self@ }),
    {
        let mut c = self;
        c.alter_value(value);
        c
    }

    pub fn name(&self) -> (r: &OptionId)
        ensures
            r@ == self@.name,
    {
        &self.name
    }

    pub fn value(&self) -> (r: &OptionString)
        ensures
            r@ == self@.value,
    {
        &self.value
    }

    /// Applies `change` to the component.
    pub fn apply(&mut self, change: &ComponentChange)
        ensures
            final(self)@ == old(self)@.changed(change@),
    {
        match change {
            ComponentChange::Id(id) => {},
            ComponentChange::Classes(op, classes) => {},
            ComponentChange::Weight(w) => {
                self.alter_weight(*w);
            },
            ComponentChange::Renderable(r) => {},
        }
    }

    /// The markup of the field.
    pub fn prepare(&self, cx: &Context) -> (m: Markup)
        ensures
            m@ == self@.markup(cx@.langid),
    {
        let name = self.name.get();
        let value = self.value.get();
        let id = prefix_name("value-", &name);
        let mut m = Markup::raw("<input type=\"hidden\"");
        m.push_opt_attr("id", &id);
        m.push_opt_attr("name", &name);
        m.push_opt_attr("value", &value);
        m.push_raw(">");
        m
    }
}

impl ComponentTrait for Hidden {
    open spec fn as_view(&self) -> ComponentView {
        ComponentView::Hidden(self@)
    }

    open spec fn is_kind(c: ComponentView) -> bool {
        c is Hidden
    }

    fn from_any(component: &AnyComponent) -> (r: Option<&Self>) {
        proof {
            lemma_view_of_kind(*component);
        }
        match component {
            AnyComponent::Hidden(c) => Some(c),
            _ => None,
        }
    }

    fn from_any_mut(component: &mut AnyComponent) -> (r: Option<&mut Self>) {
        proof {
            lemma_view_of_kind(*component);
        }
        match component {
            AnyComponent::Hidden(c) => {
                proof {
                    lemma_view_of_kind(AnyComponent::Hidden(*final(c)));
                }
                Some(c)
            },
            _ => None,
        }
    }

    fn new() -> (r: Self)
        ensures
            r@ == HiddenView::initial(),
    {
        Hidden {
            weight: 0,
            name: OptionId::new(),
            value: OptionString::new(),
        }
    }

    fn handle(&self) -> (h: Handle) {
        COMPONENT_HIDDEN
    }

    fn weight(&self) -> (w: Weight) {
        self.weight
    }

    fn is_renderable(&self, cx: &Context) -> (b: bool) {
        true
    }

    fn default_render<T: ThemeTrait + ?Sized>(
        &mut self,
        cx: &mut Context,
        theme: &T,
        actions: &ActionsRegistry,
    ) -> (m: Markup) {
        self.prepare(cx)
    }
}

} // verus!
