//! A form and the elements it holds.

use crate::action::{ActionsRegistry, ComponentChange, ComponentChangeView};
use crate::component::{
    bundle_altered, deepest, default_rendered, lemma_deepest, lemma_deepest_bound,
    lemma_view_of_kind, AnyComponent, BundleOp, ComponentTrait, ComponentView, ComponentsBundle,
    FnIsRenderable, IsRenderableView, Renderable, Rendered, COMPONENT_FORM,
};
use crate::context::Context;
use crate::handle::Handle;
use crate::html::classes::{Classes, ClassesOp, ClassesOpView, ClassesView};
use crate::html::markup::{opt_attr, Markup};
use crate::html::opt_id::{identifier, non_empty, OptionId};
use crate::html::opt_string::OptionString;
use crate::order::Weight;
use crate::text::{lemma_trimmed_already, trimmed};
use crate::theme::ThemeTrait;
use vstd::prelude::*;

verus! {

/// How a form is sent.
#[derive(Clone, Copy, Debug, PartialEq, Eq, Structural)]
pub enum FormMethod {
    Post,
    Get,
}

/// A `Form` as a mathematical value.
pub struct FormView {
    pub weight: Weight,
    pub renderable: IsRenderableView,
    pub id: Option<Seq<char>>,
    pub classes: ClassesView,
    pub action: Option<Seq<char>>,
    pub charset: Option<Seq<char>>,
    pub method: FormMethod,
    pub elements: Seq<ComponentView>,
    pub template: Seq<char>,
}

/// The value of the `method` attribute: none for `Get`, which browsers assume.
pub open spec fn method_value(method: FormMethod) -> Option<Seq<char>> {
    match method {
        FormMethod::Post => Some("post"@),
        FormMethod::Get => None,
    }
}

impl FormView {
    /// The markup of the form around the markup `inner` of its elements.
    pub open spec fn markup(self, inner: Seq<char>) -> Seq<char> {
        "<form"@ + opt_attr("id"@, self.id) + opt_attr("class"@, self.classes.value()) + opt_attr(
            "action"@,
            self.action,
        ) + opt_attr("method"@, method_value(self.method)) + opt_attr(
            "accept-charset"@,
            self.charset,
        ) + "><div>"@ + inner + "</div></form>"@
    }

    /// The component as `Form::new` makes it.
    pub open spec fn initial() -> FormView {
        FormView {
            weight: 0,
            renderable: IsRenderableView::Always,
            id: None,
            classes: ClassesView::empty().altered(ClassesOpView::SetDefault, "form"@),
            action: None,
            charset: Some("UTF-8"@),
            method: FormMethod::Post,
            elements: Seq::empty(),
            template: "default"@,
        }
    }

    /// The component after `change`; a change it has no use for leaves it as it is.
    pub open spec fn changed(self, change: ComponentChangeView) -> FormView {
        match change {
            ComponentChangeView::Id(id) => FormView { id: non_empty(identifier(id)), ..self },
            ComponentChangeView::Classes(op, classes) => FormView {
                classes: self.classes.altered(op, classes),
                ..self
            },
            ComponentChangeView::Weight(w) => FormView { weight: w, ..self },
            ComponentChangeView::Renderable(r) => FormView { renderable: r, ..self },
        }
    }
}

/// A form.
pub struct Form {
    pub(crate) weight: Weight,
    pub(crate) renderable: Renderable,
    pub(crate) id: OptionId,
    pub(crate) classes: Classes,
    pub(crate) action: OptionString,
    pub(crate) charset: OptionString,
    pub(crate) method: FormMethod,
    pub(crate) elements: ComponentsBundle,
    pub(crate) template: String,
}

impl View for Form {
    type V = FormView;

    closed spec fn view(&self) -> FormView
        decreases self,
    {
        FormView {
            weight: self.weight,
            renderable: self.renderable@,
            id: self.id@,
            classes: self.classes@,
            action: self.action@,
            charset: self.charset@,
            method: self.method,
            elements: self.elements.view(),
            template: self.template@,
        }
    }
}

impl Form {
    pub fn alter_weight(&mut self, value: Weight) -> (r: &mut Self)
        ensures
            r@ == (FormView { weight: value, ..old(self)@ }),
            *final(self) == *final(r),
    {
        self.weight = value;
        self
    }

    pub fn with_weight(self, value: Weight) -> (r: Self)
        ensures
            r@ == (FormView { weight: value, ..self@ }),
    {
        let mut c = self;
        c.alter_weight(value);
        c
    }

    pub fn alter_renderable(&mut self, check: FnIsRenderable) -> (r: &mut Self)
        ensures
            r@ == (FormView { renderable: check@, ..old(self)@ }),
            *final(self) == *final(r),
    {
        self.renderable.check = check;
        self
    }

    pub fn with_renderable(self, check: FnIsRenderable) -> (r: Self)
        ensures
            r@ == (FormView { renderable: check@, ..self@ }),
    {
        let mut c = self;
        c.alter_renderable(check);
        c
    }

    pub fn alter_id(&mut self, id: &str) -> (r: &mut Self)
        ensures
            r@ == (FormView { id: non_empty(identifier(id@)), ..old(self)@ }),
            *final(self) == *final(r),
    {
        self.id.alter_value(id);
        self
    }

    pub fn with_id(self, id: &str) -> (r: Self)
        ensures
            r@ == (FormView { id: non_empty(identifier(id@)), ..self@ }),
    {
        let mut c = self;
        c.alter_id(id);
        c
    }

    pub fn alter_classes(&mut self, op: ClassesOp, classes: &str) -> (r: &mut Self)
        ensures
            r@ == (FormView { classes: old(self)@.classes.altered(op@, classes@), ..old(self)@ }),
            *final(self) == *final(r),
    {
        self.classes.alter_value(op, classes);
        self
    }

    pub fn with_classes(self, op: ClassesOp, classes: &str) -> (r: Self)
        ensures
            r@ == (FormView { classes: self@.classes.altered(op@, classes@), ..self@ }),
    {
        let mut c = self;
        c.alter_classes(op, classes);
        c
    }

    pub fn alter_action(&mut self, action: &str) -> (r: &mut Self)
        ensures
            r@ == (FormView { action: non_empty(trimmed(action@)), ..old(self)@ }),
            *final(self) == *final(r),
    {
        self.action.alter_value(action);
        self
    }

    pub fn with_action(self, action: &str) -> (r: Self)
        ensures
            r@ == (FormView { action: non_empty(trimmed(action@)), ..self@ }),
    {
        let mut c = self;
        c.alter_action(action);
        c
    }

    pub fn alter_charset(&mut self, charset: &str) -> (r: &mut Self)
        ensures
            r@ == (FormView { charset: non_empty(trimmed(charset@)), ..old(self)@ }),
            *final(self) == *final(r),
    {
        self.charset.alter_value(charset);
        self
    }

    pub fn with_charset(self, charset: &str) -> (r: Self)
        ensures
            r@ == (FormView { charset: non_empty(trimmed(charset@)), ..self@ }),
    {
        let mut c = self;
        c.alter_charset(charset);
        c
    }

    pub fn alter_method(&mut self, method: FormMethod) -> (r: &mut Self)
        ensures
            r@ == (FormView { method: method, ..old(self)@ }),
            *final(self) == *final(r),
    {
        self.method = method;
        self
    }

    pub fn with_method(self, method: FormMethod) -> (r: Self)
        ensures
            r@ == (FormView { method: method, ..self@ }),
    {
        let mut c = self;
        c.alter_method(method);
        c
    }

    /// Puts `component` behind what is there.
    pub fn alter_element(&mut self, component: AnyComponent) -> (r: &mut Self)
        ensures
            r@ == (FormView { elements: old(self)@.elements.push(component@), ..old(self)@ }),
            *final(self) == *final(r),
    {
        self.elements.add(component);
        self
    }

    /// Puts `component` behind what is there.
    pub fn with_element(self, component: AnyComponent) -> (r: Self)
        ensures
            r@ == (FormView { elements: self@.elements.push(component@), ..self@ }),
    {
        let mut c = self;
        c.alter_element(component);
        c
    }

    pub fn alter_elements(&mut self, op: BundleOp, component: AnyComponent) -> (r: &mut Self)
        ensures
            r@ == (FormView {
                elements: bundle_altered(old(self)@.elements, op, component@),
                ..old(self)@
            }),
            *final(self) == *final(r),
    {
        self.elements.alter_bundle(op, component);
        self
    }

    pub fn with_elements(self, op: BundleOp, component: AnyComponent) -> (r: Self)
        ensures
            r@ == (FormView { elements: bundle_altered(self@.elements, op, component@), ..self@ }),
    {
        let mut c = self;
        c.alter_elements(op, component);
        c
    }

    pub fn alter_template(&mut self, template: &str) -> (r: &mut Self)
        ensures
            r@ == (FormView { template: template@, ..old(self)@ }),
            *final(self) == *final(r),
    {
        self.template = template.to_owned();
        self
    }

    pub fn with_template(self, template: &str) -> (r: Self)
        ensures
            r@ == (FormView { template: template@, ..self@ }),
    {
        let mut c = self;
        c.alter_template(template);
        c
    }

    pub fn using_template(self, template: &str) -> (r: Self)
        ensures
            r@ == (FormView { template: template@, ..self@ }),
    {
        let mut c = self;
        c.alter_template(template);
        c
    }

    pub fn id(&self) -> (r: &OptionId)
        ensures
            r@ == self@.id,
    {
        &self.id
    }

    pub fn classes(&self) -> (r: &Classes)
        ensures
            r@ == self@.classes,
    {
        &self.classes
    }

    pub fn action(&self) -> (r: &OptionString)
        ensures
            r@ == self@.action,
    {
        &self.action
    }

    pub fn charset(&self) -> (r: &OptionString)
        ensures
            r@ == self@.charset,
    {
        &self.charset
    }

    pub fn method(&self) -> (r: &FormMethod)
        ensures
            *r == self@.method,
    {
        &self.method
    }

    pub fn elements(&self) -> (r: &ComponentsBundle)
        ensures
            r@ == self@.elements,
    {
        &self.elements
    }

    pub fn template(&self) -> (r: &str)
        ensures
            r@ == self@.template,
    {
        self.template.as_str()
    }

    /// Applies `change` to the component.
    pub fn apply(&mut self, change: &ComponentChange)
        ensures
            final(self)@ == old(self)@.changed(change@),
    {
        match change {
            ComponentChange::Id(id) => {
                self.alter_id(id.as_str());
            },
            ComponentChange::Classes(op, classes) => {
                self.alter_classes(op.duplicate(), classes.as_str());
            },
            ComponentChange::Weight(w) => {
                self.alter_weight(*w);
            },
            ComponentChange::Renderable(r) => {
                self.alter_renderable(r.duplicate());
            },
        }
    }

    /// Renders what the component holds and writes the component around it.
    pub(crate) fn render_fueled<T: ThemeTrait + ?Sized>(
        &mut self,
        cx: &mut Context,
        theme: &T,
        actions: &ActionsRegistry,
        Ghost(fuel): Ghost<nat>,
    ) -> (m: Markup)
        requires
            ComponentView::Form(old(self)@).nesting() <= fuel,
        ensures
            (Rendered {
                markup: m@,
                component: ComponentView::Form(final(self)@),
                context: final(cx)@,
            }) == default_rendered(
                theme,
                actions,
                ComponentView::Form(old(self)@),
                old(cx)@,
                fuel,
            ),
            ComponentView::Form(final(self)@).nesting() <= ComponentView::Form(
                old(self)@,
            ).nesting(),
        decreases fuel, 1nat, 0nat,
    {
        let ghost before = self@;
        proof {
            assert forall|i: int| 0 <= i < before.elements.len() implies (
            #[trigger] before.elements[i]).nesting() <= fuel - 1 by {
                lemma_deepest(before.elements, i);
            }
        }
        let id = self.id.get();
        let classes = self.classes.get();
        let action = self.action.get();
        let charset = self.charset.get();
        let method: Option<String> = match self.method {
            FormMethod::Post => Some("post".to_owned()),
            FormMethod::Get => None,
        };
        let inner = self.elements.render_fueled(cx, theme, actions, Ghost((fuel - 1) as nat));
        proof {
            assert(self@ == (FormView { elements: self@.elements, ..before }));
            assert forall|i: int| 0 <= i < self@.elements.len() implies (
            #[trigger] self@.elements[i]).nesting() <= deepest(before.elements) by {
                lemma_deepest(before.elements, i);
            }
            lemma_deepest_bound(self@.elements, deepest(before.elements));
        }
        let mut m = Markup::raw("<form");
        m.push_opt_attr("id", &id);
        m.push_opt_attr("class", &classes);
        m.push_opt_attr("action", &action);
        m.push_opt_attr("method", &method);
        m.push_opt_attr("accept-charset", &charset);
        m.push_raw("><div>");
        m.push(&inner);
        m.push_raw("</div></form>");
        assert(m@ == before.markup(inner@));
        m
    }
}

impl ComponentTrait for Form {
    open spec fn as_view(&self) -> ComponentView {
        ComponentView::Form(self@)
    }

    open spec fn is_kind(c: ComponentView) -> bool {
        c is Form
    }

    fn from_any(component: &AnyComponent) -> (r: Option<&Self>) {
        proof {
            lemma_view_of_kind(*component);
        }
        match component {
            AnyComponent::Form(c) => Some(c),
            _ => None,
        }
    }

    fn from_any_mut(component: &mut AnyComponent) -> (r: Option<&mut Self>) {
        proof {
            lemma_view_of_kind(*component);
        }
        match component {
            AnyComponent::Form(c) => {
                proof {
                    lemma_view_of_kind(AnyComponent::Form(*final(c)));
                }
                Some(c)
            },
            _ => None,
        }
    }

    fn new() -> (r: Self)
        ensures
            r@ == FormView::initial(),
    {
        proof {
            reveal_strlit("UTF-8");
            lemma_trimmed_already("UTF-8"@);
        }
        Form {
            weight: 0,
            renderable: Renderable::new(),
            id: OptionId::new(),
            classes: Classes::new_with_default("form"),
            action: OptionString::new(),
            charset: OptionString::with("UTF-8"),
            method: FormMethod::Post,
            elements: ComponentsBundle::new(),
            template: "default".to_owned(),
        }
    }

    fn handle(&self) -> (h: Handle) {
        COMPONENT_FORM
    }

    fn weight(&self) -> (w: Weight) {
        self.weight
    }

    fn is_renderable(&self, cx: &Context) -> (b: bool) {
        self.renderable.holds(cx)
    }

    fn default_render<T: ThemeTrait + ?Sized>(
        &mut self,
        cx: &mut Context,
        theme: &T,
        actions: &ActionsRegistry,
    ) -> (m: Markup) {
        let ghost fuel = ComponentView::Form(self@).nesting();
        self.render_fueled(cx, theme, actions, Ghost(fuel))
    }
}

} // verus!
