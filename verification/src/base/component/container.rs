//! A block that holds other components.

use crate::component::{
    bundle_altered, deepest, default_rendered, lemma_deepest, lemma_deepest_bound,
    lemma_view_of_kind, AnyComponent, BundleOp, ComponentTrait, ComponentView, ComponentsBundle,
    FnIsRenderable, IsRenderableView, Renderable, Rendered, COMPONENT_CONTAINER,
};
use crate::context::Context;
use crate::handle::Handle;
use crate::html::classes::{Classes, ClassesOp, ClassesOpView, ClassesView};
use crate::html::markup::{opt_attr, Markup};
use crate::html::opt_id::{identifier, non_empty, OptionId};
use crate::order::Weight;
use crate::action::{ActionsRegistry, ComponentChange, ComponentChangeView};
use crate::theme::ThemeTrait;
use vstd::prelude::*;

verus! {

/// The element that a container is written as.
#[derive(Clone, Copy, Debug, PartialEq, Eq, Structural)]
pub enum ContainerType {
    Wrapper,
    Header,
    Footer,
    Main,
    Section,
}

/// A `Container` as a mathematical value.
pub struct ContainerView {
    pub weight: Weight,
    pub renderable: IsRenderableView,
    pub id: Option<Seq<char>>,
    pub classes: ClassesView,
    pub inner_classes: ClassesView,
    pub container_type: ContainerType,
    pub components: Seq<ComponentView>,
    pub template: Seq<char>,
}

/// The name of the element for a container type.
pub open spec fn container_tag(t: ContainerType) -> Seq<char> {
    match t {
        ContainerType::Wrapper => "div"@,
        ContainerType::Header => "header"@,
        ContainerType::Footer => "footer"@,
        ContainerType::Main => "main"@,
        ContainerType::Section => "section"@,
    }
}

impl ContainerView {
    /// The markup of the container around the markup `inner` of what it holds.
    /// A wrapper is a single `div`; the other types put an inner `div` with
    /// the inner classes around the content.
    pub open spec fn markup(self, inner: Seq<char>) -> Seq<char> {
        let open = "<"@ + container_tag(self.container_type) + opt_attr("id"@, self.id) + opt_attr(
            "class"@,
            self.classes.value(),
        ) + ">"@;
        let close = "</"@ + container_tag(self.container_type) + ">"@;
        if self.container_type == ContainerType::Wrapper {
            open + inner + close
        } else {
            open + "<div"@ + opt_attr("class"@, self.inner_classes.value()) + ">"@ + inner
                + "</div>"@ + close
        }
    }

    /// The component after `change`.
    pub open spec fn changed(self, change: ComponentChangeView) -> ContainerView {
        match change {
            ComponentChangeView::Id(id) => ContainerView { id: non_empty(identifier(id)), ..self },
            ComponentChangeView::Classes(op, classes) => ContainerView {
                classes: self.classes.altered(op, classes),
                ..self
            },
            ComponentChangeView::Weight(w) => ContainerView { weight: w, ..self },
            ComponentChangeView::Renderable(r) => ContainerView { renderable: r, ..self },
        }
    }

    /// A container as `Container::new` makes it.
    pub open spec fn initial() -> ContainerView {
        ContainerView {
            weight: 0,
            renderable: IsRenderableView::Always,
            id: None,
            classes: ClassesView::empty().altered(ClassesOpView::SetDefault, "container"@),
            inner_classes: ClassesView::empty().altered(ClassesOpView::SetDefault, "container"@),
            container_type: ContainerType::Wrapper,
            components: Seq::empty(),
            template: "default"@,
        }
    }

    /// A container of type `t` with the default class `class`.
    pub open spec fn of_type(t: ContainerType, class: Seq<char>) -> ContainerView {
        ContainerView {
            classes: Self::initial().classes.altered(ClassesOpView::SetDefault, class),
            container_type: t,
            ..Self::initial()
        }
    }
}

/// A block that holds components.
pub struct Container {
    pub(crate) weight: Weight,
    pub(crate) renderable: Renderable,
    pub(crate) id: OptionId,
    pub(crate) classes: Classes,
    pub(crate) inner_classes: Classes,
    pub(crate) container_type: ContainerType,
    pub(crate) components: ComponentsBundle,
    pub(crate) template: String,
}

impl View for Container {
    type V = ContainerView;

    closed spec fn view(&self) -> ContainerView
        decreases self,
    {
        ContainerView {
            weight: self.weight,
            renderable: self.renderable@,
            id: self.id@,
            classes: self.classes@,
            inner_classes: self.inner_classes@,
            container_type: self.container_type,
            components: self.components.view(),
            template: self.template@,
        }
    }
}

impl Container {
    fn of_type(t: ContainerType, class: &str) -> (r: Self)
        ensures
            r@ == ContainerView::of_type(t, class@),
    {
        let mut c = <Container as ComponentTrait>::new();
        c.classes.alter_value(ClassesOp::SetDefault, class);
        c.container_type = t;
        c
    }

    pub fn header() -> (r: Self)
        ensures
            r@ == ContainerView::of_type(ContainerType::Header, "header"@),
    {
        Container::of_type(ContainerType::Header, "header")
    }

    pub fn footer() -> (r: Self)
        ensures
            r@ == ContainerView::of_type(ContainerType::Footer, "footer"@),
    {
        Container::of_type(ContainerType::Footer, "footer")
    }

    pub fn main() -> (r: Self)
        ensures
            r@ == ContainerView::of_type(ContainerType::Main, "main"@),
    {
        Container::of_type(ContainerType::Main, "main")
    }

    pub fn section() -> (r: Self)
        ensures
            r@ == ContainerView::of_type(ContainerType::Section, "section"@),
    {
        Container::of_type(ContainerType::Section, "section")
    }

    pub fn alter_weight(&mut self, value: Weight) -> (r: &mut Self)
        ensures
            r@ == (ContainerView { weight: value, ..old(self)@ }),
            *final(self) == *final(r),
    {
        self.weight = value;
        self
    }

    pub fn with_weight(self, value: Weight) -> (r: Self)
        ensures
            r@ == (ContainerView { weight: value, ..self@ }),
    {
        let mut c = self;
        c.alter_weight(value);
        c
    }

    pub fn alter_renderable(&mut self, check: FnIsRenderable) -> (r: &mut Self)
        ensures
            r@ == (ContainerView {
                renderable: check@,
                ..old(self)@
            }),
            *final(self) == *final(r),
    {
        self.renderable.check = check;
        self
    }

    pub fn with_renderable(self, check: FnIsRenderable) -> (r: Self)
        ensures
            r@ == (ContainerView { renderable: check@, ..self@ }),
    {
        let mut c = self;
        c.alter_renderable(check);
        c
    }

    pub fn alter_id(&mut self, id: &str) -> (r: &mut Self)
        ensures
            r@ == (ContainerView { id: non_empty(identifier(id@)), ..old(self)@ }),
            *final(self) == *final(r),
    {
        self.id.alter_value(id);
        self
    }

    pub fn with_id(self, id: &str) -> (r: Self)
        ensures
            r@ == (ContainerView { id: non_empty(identifier(id@)), ..self@ }),
    {
        let mut c = self;
        c.alter_id(id);
        c
    }

    pub fn alter_classes(&mut self, op: ClassesOp, classes: &str) -> (r: &mut Self)
        ensures
            r@ == (ContainerView {
                classes: old(self)@.classes.altered(op@, classes@),
                ..old(self)@
            }),
            *final(self) == *final(r),
    {
        self.classes.alter_value(op, classes);
        self
    }

    pub fn with_classes(self, op: ClassesOp, classes: &str) -> (r: Self)
        ensures
            r@ == (ContainerView { classes: self@.classes.altered(op@, classes@), ..self@ }),
    {
        let mut c = self;
        c.alter_classes(op, classes);
        c
    }

    pub fn alter_inner_classes(&mut self, op: ClassesOp, classes: &str) -> (r: &mut Self)
        ensures
            r@ == (ContainerView {
                inner_classes: old(self)@.inner_classes.altered(op@, classes@),
                ..old(self)@
            }),
            *final(self) == *final(r),
    {
        self.inner_classes.alter_value(op, classes);
        self
    }

    pub fn with_inner_classes(self, op: ClassesOp, classes: &str) -> (r: Self)
        ensures
            r@ == (ContainerView {
                inner_classes: self@.inner_classes.altered(op@, classes@),
                ..self@
            }),
    {
        let mut c = self;
        c.alter_inner_classes(op, classes);
        c
    }

    /// Puts `component` behind the components that the container holds.
    pub fn alter_component(&mut self, component: AnyComponent) -> (r: &mut Self)
        ensures
            r@ == (ContainerView {
                components: old(self)@.components.push(component@),
                ..old(self)@
            }),
            *final(self) == *final(r),
    {
        self.components.add(component);
        self
    }

    pub fn with_component(self, component: AnyComponent) -> (r: Self)
        ensures
            r@ == (ContainerView { components: self@.components.push(component@), ..self@ }),
    {
        let mut c = self;
        c.alter_component(component);
        c
    }

    pub fn alter_bundle(&mut self, op: BundleOp, component: AnyComponent) -> (r: &mut Self)
        ensures
            r@ == (ContainerView {
                components: bundle_altered(old(self)@.components, op, component@),
                ..old(self)@
            }),
            *final(self) == *final(r),
    {
        self.components.alter_bundle(op, component);
        self
    }

    pub fn with_bundle(self, op: BundleOp, component: AnyComponent) -> (r: Self)
        ensures
            r@ == (ContainerView {
                components: bundle_altered(self@.components, op, component@),
                ..self@
            }),
    {
        let mut c = self;
        c.alter_bundle(op, component);
        c
    }

    pub fn alter_template(&mut self, template: &str) -> (r: &mut Self)
        ensures
            r@ == (ContainerView { template: template@, ..old(self)@ }),
            *final(self) == *final(r),
    {
        self.template = template.to_owned();
        self
    }

    pub fn with_template(self, template: &str) -> (r: Self)
        ensures
            r@ == (ContainerView { template: template@, ..self@ }),
    {
        let mut c = self;
        c.alter_template(template);
        c
    }

    pub fn using_template(self, template: &str) -> (r: Self)
        ensures
            r@ == (ContainerView { template: template@, ..self@ }),
    {
        self.with_template(template)
    }

    pub fn id(&self) -> (r: &OptionId)
        ensures
            r@ == self@.id,
    {
        &self.id
    }

    pub fn classes(&self) -> (r: &Classes)
        ensures
            r@ == self@.classes,
    {
        &self.classes
    }

    pub fn inner_classes(&self) -> (r: &Classes)
        ensures
            r@ == self@.inner_classes,
    {
        &self.inner_classes
    }

    pub fn container_type(&self) -> (r: &ContainerType)
        ensures
            *r == self@.container_type,
    {
        &self.container_type
    }

    pub fn components(&self) -> (r: &ComponentsBundle)
        ensures
            r@ == self@.components,
    {
        &self.components
    }

    pub fn template(&self) -> (r: &str)
        ensures
            r@ == self@.template,
    {
        self.template.as_str()
    }

    /// Applies `change` to the component.
    pub fn apply(&mut self, change: &ComponentChange)
        ensures
            final(self)@ == old(self)@.changed(change@),
    {
        match change {
            ComponentChange::Id(id) => {
                self.alter_id(id.as_str());
            },
            ComponentChange::Classes(op, classes) => {
                self.alter_classes(op.duplicate(), classes.as_str());
            },
            ComponentChange::Weight(w) => {
                self.alter_weight(*w);
            },
            ComponentChange::Renderable(r) => {
                self.alter_renderable(r.duplicate());
            },
        }
    }

    fn tag(&self) -> (t: &'static str)
        ensures
            t@ == container_tag(self@.container_type),
    {
        match self.container_type {
            ContainerType::Wrapper => "div",
            ContainerType::Header => "header",
            ContainerType::Footer => "footer",
            ContainerType::Main => "main",
            ContainerType::Section => "section",
        }
    }

    /// Renders what the container holds and writes the container around it.
    pub(crate) fn render_fueled<T: ThemeTrait + ?Sized>(
        &mut self,
        cx: &mut Context,
        theme: &T,
        actions: &ActionsRegistry,
        Ghost(fuel): Ghost<nat>,
    ) -> (m: Markup)
        requires
            ComponentView::Container(old(self)@).nesting() <= fuel,
        ensures
            (Rendered {
                markup: m@,
                component: ComponentView::Container(final(self)@),
                context: final(cx)@,
            }) == default_rendered(
                theme,
                actions,
                ComponentView::Container(old(self)@),
                old(cx)@,
                fuel,
            ),
            ComponentView::Container(final(self)@).nesting() <= ComponentView::Container(
                old(self)@,
            ).nesting(),
        decreases fuel, 1nat, 0nat,
    {
        let ghost before = self@;
        proof {
            assert forall|i: int| 0 <= i < before.components.len() implies (
            #[trigger] before.components[i]).nesting() <= fuel - 1 by {
                lemma_deepest(before.components, i);
            }
        }
        let id = self.id.get();
        let classes = self.classes.get();
        let inner_classes = self.inner_classes.get();
        let tag = self.tag();
        let wrapper = self.container_type == ContainerType::Wrapper;
        let inner = self.components.render_fueled(cx, theme, actions, Ghost((fuel - 1) as nat));
        proof {
            assert(self@ == (ContainerView { components: self@.components, ..before }));
            assert forall|i: int| 0 <= i < self@.components.len() implies (
            #[trigger] self@.components[i]).nesting() <= deepest(before.components) by {
                lemma_deepest(before.components, i);
            }
            lemma_deepest_bound(self@.components, deepest(before.components));
        }
        let mut m = Markup::raw("<");
        m.push_raw(tag);
        m.push_opt_attr("id", &id);
        m.push_opt_attr("class", &classes);
        m.push_raw(">");
        if !wrapper {
            m.push_raw("<div");
            m.push_opt_attr("class", &inner_classes);
            m.push_raw(">");
        }
        m.push(&inner);
        if !wrapper {
            m.push_raw("</div>");
        }
        m.push_raw("</");
        m.push_raw(tag);
        m.push_raw(">");
        assert(m@ == before.markup(inner@));
        m
    }
}

impl ComponentTrait for Container {
    open spec fn as_view(&self) -> ComponentView {
        ComponentView::Container(self@)
    }

    open spec fn is_kind(c: ComponentView) -> bool {
        c is Container
    }

    fn from_any(component: &AnyComponent) -> (r: Option<&Self>) {
        proof {
            lemma_view_of_kind(*component);
        }
        match component {
            AnyComponent::Container(c) => Some(c),
            _ => None,
        }
    }

    fn from_any_mut(component: &mut AnyComponent) -> (r: Option<&mut Self>) {
        proof {
            lemma_view_of_kind(*component);
        }
        match component {
            AnyComponent::Container(c) => {
                proof {
                    lemma_view_of_kind(AnyComponent::Container(*final(c)));
                }
                Some(c)
            },
            _ => None,
        }
    }

    fn new() -> (r: Self)
        ensures
            r@ == ContainerView::initial(),
    {
        Container {
            weight: 0,
            renderable: Renderable::new(),
            id: OptionId::new(),
            classes: Classes::new_with_default("container"),
            inner_classes: Classes::new_with_default("container"),
            container_type: ContainerType::Wrapper,
            components: ComponentsBundle::new(),
            template: "default".to_owned(),
        }
    }

    fn handle(&self) -> (h: Handle) {
        COMPONENT_CONTAINER
    }

    fn weight(&self) -> (w: Weight) {
        self.weight
    }

    fn is_renderable(&self, cx: &Context) -> (b: bool) {
        self.renderable.holds(cx)
    }

    fn default_render<T: ThemeTrait + ?Sized>(
        &mut self,
        cx: &mut Context,
        theme: &T,
        actions: &ActionsRegistry,
    ) -> (m: Markup) {
        let ghost fuel = ComponentView::Container(self@).nesting();
        self.render_fueled(cx, theme, actions, Ghost(fuel))
    }
}

} // verus!
