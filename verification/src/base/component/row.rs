//! A row of a grid and the columns it holds.

use crate::action::{ActionsRegistry, ComponentChange, ComponentChangeView};
use crate::component::{
    bundle_altered, deepest, default_rendered, lemma_deepest, lemma_deepest_bound,
    lemma_view_of_kind, AnyComponent, BundleOp, ComponentTrait, ComponentView, ComponentsBundle,
    FnIsRenderable, IsRenderableView, Renderable, Rendered, COMPONENT_ROW,
};
use crate::context::Context;
use crate::handle::Handle;
use crate::html::classes::{Classes, ClassesOp, ClassesOpView, ClassesView};
use crate::html::markup::{opt_attr, Markup};
use crate::html::opt_id::{identifier, non_empty, OptionId};
use crate::order::Weight;
use crate::theme::ThemeTrait;
use vstd::prelude::*;

verus! {

/// A `Row` as a mathematical value.
pub struct RowView {
    pub weight: Weight,
    pub renderable: IsRenderableView,
    pub id: Option<Seq<char>>,
    pub classes: ClassesView,
    pub columns: Seq<ComponentView>,
    pub template: Seq<char>,
}

impl RowView {
    /// The markup of the row around the markup `inner` of its columns.
    pub open spec fn markup(self, inner: Seq<char>) -> Seq<char> {
        "<div"@ + opt_attr("id"@, self.id) + opt_attr("class"@, self.classes.value()) + ">"@
            + inner + "</div>"@
    }

    /// The component as `Row::new` makes it.
    pub open spec fn initial() -> RowView {
        RowView {
            weight: 0,
            renderable: IsRenderableView::Always,
            id: None,
            classes: ClassesView::empty().altered(ClassesOpView::SetDefault, "row"@),
            columns: Seq::empty(),
            template: "default"@,
        }
    }

    /// The component after `change`; a change it has no use for leaves it as it is.
    pub open spec fn changed(self, change: ComponentChangeView) -> RowView {
        match change {
            ComponentChangeView::Id(id) => RowView { id: non_empty(identifier(id)), ..self },
            ComponentChangeView::Classes(op, classes) => RowView {
                classes: self.classes.altered(op, classes),
                ..self
            },
            ComponentChangeView::Weight(w) => RowView { weight: w, ..self },
            ComponentChangeView::Renderable(r) => RowView { renderable: r, ..self },
        }
    }
}

/// A row of a grid.
pub struct Row {
    pub(crate) weight: Weight,
    pub(crate) renderable: Renderable,
    pub(crate) id: OptionId,
    pub(crate) classes: Classes,
    pub(crate) columns: ComponentsBundle,
    pub(crate) template: String,
}

impl View for Row {
    type V = RowView;

    closed spec fn view(&self) -> RowView
        decreases self,
    {
        RowView {
            weight: self.weight,
            renderable: self.renderable@,
            id: self.id@,
            classes: self.classes@,
            columns: self.columns.view(),
            template: self.template@,
        }
    }
}

impl Row {
    pub fn alter_weight(&mut self, value: Weight) -> (r: &mut Self)
        ensures
            r@ == (RowView { weight: value, ..old(self)@ }),
            *final(self) == *final(r),
    {
        self.weight = value;
        self
    }

    pub fn with_weight(self, value: Weight) -> (r: Self)
        ensures
            r@ == (RowView { weight: value, ..self@ }),
    {
        let mut c = self;
        c.alter_weight(value);
        c
    }

    pub fn alter_renderable(&mut self, check: FnIsRenderable) -> (r: &mut Self)
        ensures
            r@ == (RowView { renderable: check@, ..old(self)@ }),
            *final(self) == *final(r),
    {
        self.renderable.check = check;
        self
    }

    pub fn with_renderable(self, check: FnIsRenderable) -> (r: Self)
        ensures
            r@ == (RowView { renderable: check@, ..self@ }),
    {
        let mut c = self;
        c.alter_renderable(check);
        c
    }

    pub fn alter_id(&mut self, id: &str) -> (r: &mut Self)
        ensures
            r@ == (RowView { id: non_empty(identifier(id@)), ..old(self)@ }),
            *final(self) == *final(r),
    {
        self.id.alter_value(id);
        self
    }

    pub fn with_id(self, id: &str) -> (r: Self)
        ensures
            r@ == (RowView { id: non_empty(identifier(id@)), ..self@ }),
    {
        let mut c = self;
        c.alter_id(id);
        c
    }

    pub fn alter_classes(&mut self, op: ClassesOp, classes: &str) -> (r: &mut Self)
        ensures
            r@ == (RowView { classes: old(self)@.classes.altered(op@, classes@), ..old(self)@ }),
            *final(self) == *final(r),
    {
        self.classes.alter_value(op, classes);
        self
    }

    pub fn with_classes(self, op: ClassesOp, classes: &str) -> (r: Self)
        ensures
            r@ == (RowView { classes: self@.classes.altered(op@, classes@), ..self@ }),
    {
        let mut c = self;
        c.alter_classes(op, classes);
        c
    }

    /// Puts `component` behind what is there.
    pub fn alter_column(&mut self, component: AnyComponent) -> (r: &mut Self)
        ensures
            r@ == (RowView { columns: old(self)@.columns.push(component@), ..old(self)@ }),
            *final(self) == *final(r),
    {
        self.columns.add(component);
        self
    }

    /// Puts `component` behind what is there.
    pub fn with_column(self, component: AnyComponent) -> (r: Self)
        ensures
            r@ == (RowView { columns: self@.columns.push(component@), ..self@ }),
    {
        let mut c = self;
        c.alter_column(component);
        c
    }

    pub fn alter_columns(&mut self, op: BundleOp, component: AnyComponent) -> (r: &mut Self)
        ensures
            r@ == (RowView {
                columns: bundle_altered(old(self)@.columns, op, component@),
                ..old(self)@
            }),
            *final(self) == *final(r),
    {
        self.columns.alter_bundle(op, component);
        self
    }

    pub fn with_columns(self, op: BundleOp, component: AnyComponent) -> (r: Self)
        ensures
            r@ == (RowView { columns: bundle_altered(self@.columns, op, component@), ..self@ }),
    {
        let mut c = self;
        c.alter_columns(op, component);
        c
    }

    pub fn alter_template(&mut self, template: &str) -> (r: &mut Self)
        ensures
            r@ == (RowView { template: template@, ..old(self)@ }),
            *final(self) == *final(r),
    {
        self.template = template.to_owned();
        self
    }

    pub fn with_template(self, template: &str) -> (r: Self)
        ensures
            r@ == (RowView { template: template@, ..self@ }),
    {
        let mut c = self;
        c.alter_template(template);
        c
    }

    pub fn using_template(self, template: &str) -> (r: Self)
        ensures
            r@ == (RowView { template: template@, ..self@ }),
    {
        let mut c = self;
        c.alter_template(template);
        c
    }

    pub fn id(&self) -> (r: &OptionId)
        ensures
            r@ == self@.id,
    {
        &self.id
    }

    pub fn classes(&self) -> (r: &Classes)
        ensures
            r@ == self@.classes,
    {
        &self.classes
    }

    pub fn columns(&self) -> (r: &ComponentsBundle)
        ensures
            r@ == self@.columns,
    {
        &self.columns
    }

    pub fn template(&self) -> (r: &str)
        ensures
            r@ == self@.template,
    {
        self.template.as_str()
    }

    /// Applies `change` to the component.
    pub fn apply(&mut self, change: &ComponentChange)
        ensures
            final(self)@ == old(self)@.changed(change@),
    {
        match change {
            ComponentChange::Id(id) => {
                self.alter_id(id.as_str());
            },
            ComponentChange::Classes(op, classes) => {
                self.alter_classes(op.duplicate(), classes.as_str());
            },
            ComponentChange::Weight(w) => {
                self.alter_weight(*w);
            },
            ComponentChange::Renderable(r) => {
                self.alter_renderable(r.duplicate());
            },
        }
    }

    /// Renders what the component holds and writes the component around it.
    pub(crate) fn render_fueled<T: ThemeTrait + ?Sized>(
        &mut self,
        cx: &mut Context,
        theme: &T,
        actions: &ActionsRegistry,
        Ghost(fuel): Ghost<nat>,
    ) -> (m: Markup)
        requires
            ComponentView::Row(old(self)@).nesting() <= fuel,
        ensures
            (Rendered {
                markup: m@,
                component: ComponentView::Row(final(self)@),
                context: final(cx)@,
            }) == default_rendered(
                theme,
                actions,
                ComponentView::Row(old(self)@),
                old(cx)@,
                fuel,
            ),
            ComponentView::Row(final(self)@).nesting() <= ComponentView::Row(
                old(self)@,
            ).nesting(),
        decreases fuel, 1nat, 0nat,
    {
        let ghost before = self@;
        proof {
            assert forall|i: int| 0 <= i < before.columns.len() implies (
            #[trigger] before.columns[i]).nesting() <= fuel - 1 by {
                lemma_deepest(before.columns, i);
            }
        }
        let id = self.id.get();
        let classes = self.classes.get();
        let inner = self.columns.render_fueled(cx, theme, actions, Ghost((fuel - 1) as nat));
        proof {
            assert(self@ == (RowView { columns: self@.columns, ..before }));
            assert forall|i: int| 0 <= i < self@.columns.len() implies (
            #[trigger] self@.columns[i]).nesting() <= deepest(before.columns) by {
                lemma_deepest(before.columns, i);
            }
            lemma_deepest_bound(self@.columns, deepest(before.columns));
        }
        let mut m = Markup::raw("<div");
        m.push_opt_attr("id", &id);
        m.push_opt_attr("class", &classes);
        m.push_raw(">");
        m.push(&inner);
        m.push_raw("</div>");
        assert(m@ == before.markup(inner@));
        m
    }
}

impl ComponentTrait for Row {
    open spec fn as_view(&self) -> ComponentView {
        ComponentView::Row(self@)
    }

    open spec fn is_kind(c: ComponentView) -> bool {
        c is Row
    }

    fn from_any(component: &AnyComponent) -> (r: Option<&Self>) {
        proof {
            lemma_view_of_kind(*component);
        }
        match component {
            AnyComponent::Row(c) => Some(c),
            _ => None,
        }
    }

    fn from_any_mut(component: &mut AnyComponent) -> (r: Option<&mut Self>) {
        proof {
            lemma_view_of_kind(*component);
        }
        match component {
            AnyComponent::Row(c) => {
                proof {
                    lemma_view_of_kind(AnyComponent::Row(*final(c)));
                }
                Some(c)
            },
            _ => None,
        }
    }

    fn new() -> (r: Self)
        ensures
            r@ == RowView::initial(),
    {
        Row {
            weight: 0,
            renderable: Renderable::new(),
            id: OptionId::new(),
            classes: Classes::new_with_default("row"),
            columns: ComponentsBundle::new(),
            template: "default".to_owned(),
        }
    }

    fn handle(&self) -> (h: Handle) {
        COMPONENT_ROW
    }

    fn weight(&self) -> (w: Weight) {
        self.weight
    }

    fn is_renderable(&self, cx: &Context) -> (b: bool) {
        self.renderable.holds(cx)
    }

    fn default_render<T: ThemeTrait + ?Sized>(
        &mut self,
        cx: &mut Context,
        theme: &T,
        actions: &ActionsRegistry,
    ) -> (m: Markup) {
        let ghost fuel = ComponentView::Row(self@).nesting();
        self.render_fueled(cx, theme, actions, Ghost(fuel))
    }
}

} // verus!
