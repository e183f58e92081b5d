//! A menu that unfolds into groups.

use crate::action::{ActionsRegistry, ComponentChange, ComponentChangeView};
use crate::component::{
    bundle_altered, deepest, default_rendered, lemma_deepest, lemma_deepest_bound,
    lemma_view_of_kind, AnyComponent, BundleOp, ComponentTrait, ComponentView, ComponentsBundle,
    FnIsRenderable, IsRenderableView, Renderable, Rendered, COMPONENT_MEGAMENU,
};
use crate::context::Context;
use crate::handle::Handle;
use crate::html::classes::Classes;
use crate::html::markup::{opt_attr, Markup};
use crate::html::opt_id::{identifier, non_empty, OptionId};
use crate::order::Weight;
use crate::theme::ThemeTrait;
use vstd::prelude::*;

verus! {

/// A `Megamenu` as a mathematical value.
pub struct MegamenuView {
    pub weight: Weight,
    pub renderable: IsRenderableView,
    pub id: Option<Seq<char>>,
    pub groups: Seq<ComponentView>,
}

impl MegamenuView {
    /// The markup of the menu around the markup `inner` of its groups.
    pub open spec fn markup(self, inner: Seq<char>) -> Seq<char> {
        "<div"@ + opt_attr("id"@, self.id) + " class=\"pt-menu__groups\">"@ + inner + "</div>"@
    }

    /// The component as `Megamenu::new` makes it.
    pub open spec fn initial() -> MegamenuView {
        MegamenuView {
            weight: 0,
            renderable: IsRenderableView::Always,
            id: None,
            groups: Seq::empty(),
        }
    }

    /// The component after `change`; a change it has no use for leaves it as it is.
    pub open spec fn changed(self, change: ComponentChangeView) -> MegamenuView {
        match change {
            ComponentChangeView::Id(id) => MegamenuView { id: non_empty(identifier(id)), ..self },
            ComponentChangeView::Classes(op, classes) => self,
            ComponentChangeView::Weight(w) => MegamenuView { weight: w, ..self },
            ComponentChangeView::Renderable(r) => MegamenuView { renderable: r, ..self },
        }
    }
}

/// A menu that unfolds into groups.
pub struct Megamenu {
    pub(crate) weight: Weight,
    pub(crate) renderable: Renderable,
    pub(crate) id: OptionId,
    pub(crate) groups: ComponentsBundle,
}

impl View for Megamenu {
    type V = MegamenuView;

    closed spec fn view(&self) -> MegamenuView
        decreases self,
    {
        MegamenuView {
            weight: self.weight,
            renderable: self.renderable@,
            id: self.id@,
            groups: self.groups.view(),
        }
    }
}

impl Megamenu {
    pub fn alter_weight(&mut self, value: Weight) -> (r: &mut Self)
        ensures
            r@ == (MegamenuView { weight: value, ..old(self)@ }),
            *final(self) == *final(r),
    {
        self.weight = value;
        self
    }

    pub fn with_weight(self, value: Weight) -> (r: Self)
        ensures
            r@ == (MegamenuView { weight: value, ..self@ }),
    {
        let mut c = self;
        c.alter_weight(value);
        c
    }

    pub fn alter_renderable(&mut self, check: FnIsRenderable) -> (r: &mut Self)
        ensures
            r@ == (MegamenuView { renderable: check@, ..old(self)@ }),
            *final(self) == *final(r),
    {
        self.renderable.check = check;
        self
    }

    pub fn with_renderable(self, check: FnIsRenderable) -> (r: Self)
        ensures
            r@ == (MegamenuView { renderable: check@, ..self@ }),
    {
        let mut c = self;
        c.alter_renderable(check);
        c
    }

    pub fn alter_id(&mut self, id: &str) -> (r: &mut Self)
        ensures
            r@ == (MegamenuView { id: non_empty(identifier(id@)), ..old(self)@ }),
            *final(self) == *final(r),
    {
        self.id.alter_value(id);
        self
    }

    pub fn with_id(self, id: &str) -> (r: Self)
        ensures
            r@ == (MegamenuView { id: non_empty(identifier(id@)), ..self@ }),
    {
        let mut c = self;
        c.alter_id(id);
        c
    }

    /// Puts `group` behind the groups of the menu.
    pub fn add_group(self, group: AnyComponent) -> (r: Self)
        ensures
            r@ == (MegamenuView { groups: self@.groups.push(group@), ..self@ }),
    {
        let mut c = self;
        c.groups.add(group);
        c
    }

    pub fn alter_groups(&mut self, op: BundleOp, group: AnyComponent) -> (r: &mut Self)
        ensures
            r@ == (MegamenuView {
                groups: bundle_altered(old(self)@.groups, op, group@),
                ..old(self)@
            }),
            *final(self) == *final(r),
    {
        self.groups.alter_bundle(op, group);
        self
    }

    pub fn with_groups(self, op: BundleOp, group: AnyComponent) -> (r: Self)
        ensures
            r@ == (MegamenuView { groups: bundle_altered(self@.groups, op, group@), ..self@ }),
    {
        let mut c = self;
        c.alter_groups(op, group);
        c
    }

    pub fn id(&self) -> (r: &OptionId)
        ensures
            r@ == self@.id,
    {
        &self.id
    }

    pub fn groups(&self) -> (r: &ComponentsBundle)
        ensures
            r@ == self@.groups,
    {
        &self.groups
    }

    /// Applies `change` to the component.
    pub fn apply(&mut self, change: &ComponentChange)
        ensures
            final(self)@ == old(self)@.changed(change@),
    {
        match change {
            ComponentChange::Id(id) => {
                self.alter_id(id.as_str());
            },
            ComponentChange::Classes(op, classes) => {},
            ComponentChange::Weight(w) => {
                self.alter_weight(*w);
            },
            ComponentChange::Renderable(r) => {
                self.alter_renderable(r.duplicate());
            },
        }
    }

    /// Renders what the component holds and writes the component around it.
    pub(crate) fn render_fueled<T: ThemeTrait + ?Sized>(
        &mut self,
        cx: &mut Context,
        theme: &T,
        actions: &ActionsRegistry,
        Ghost(fuel): Ghost<nat>,
    ) -> (m: Markup)
        requires
            ComponentView::Megamenu(old(self)@).nesting() <= fuel,
        ensures
            (Rendered {
                markup: m@,
                component: ComponentView::Megamenu(final(self)@),
                context: final(cx)@,
            }) == default_rendered(
                theme,
                actions,
                ComponentView::Megamenu(old(self)@),
                old(cx)@,
                fuel,
            ),
            ComponentView::Megamenu(final(self)@).nesting() <= ComponentView::Megamenu(
                old(self)@,
            ).nesting(),
        decreases fuel, 1nat, 0nat,
    {
        let ghost before = self@;
        proof {
            assert forall|i: int| 0 <= i < before.groups.len() implies (
            #[trigger] before.groups[i]).nesting() <= fuel - 1 by {
                lemma_deepest(before.groups, i);
            }
        }
        let id = self.id.get();
        let inner = self.groups.render_fueled(cx, theme, actions, Ghost((fuel - 1) as nat));
        proof {
            assert(self@ == (MegamenuView { groups: self@.groups, ..before }));
            assert forall|i: int| 0 <= i < self@.groups.len() implies (
            #[trigger] self@.groups[i]).nesting() <= deepest(before.groups) by {
                lemma_deepest(before.groups, i);
            }
            lemma_deepest_bound(self@.groups, deepest(before.groups));
        }
        let mut m = Markup::raw("<div");
        m.push_opt_attr("id", &id);
        m.push_raw(" class=\"pt-menu__groups\">");
        m.push(&inner);
        m.push_raw("</div>");
        assert(m@ == before.markup(inner@));
        m
    }
}

impl ComponentTrait for Megamenu {
    open spec fn as_view(&self) -> ComponentView {
        ComponentView::Megamenu(self@)
    }

    open spec fn is_kind(c: ComponentView) -> bool {
        c is Megamenu
    }

    fn from_any(component: &AnyComponent) -> (r: Option<&Self>) {
        proof {
            lemma_view_of_kind(*component);
        }
        match component {
            AnyComponent::Megamenu(c) => Some(c),
            _ => None,
        }
    }

    fn from_any_mut(component: &mut AnyComponent) -> (r: Option<&mut Self>) {
        proof {
            lemma_view_of_kind(*component);
        }
        match component {
            AnyComponent::Megamenu(c) => {
                proof {
                    lemma_view_of_kind(AnyComponent::Megamenu(*final(c)));
                }
                Some(c)
            },
            _ => None,
        }
    }

    fn new() -> (r: Self)
        ensures
            r@ == MegamenuView::initial(),
    {
        Megamenu {
            weight: 0,
            renderable: Renderable::new(),
            id: OptionId::new(),
            groups: ComponentsBundle::new(),
        }
    }

    fn handle(&self) -> (h: Handle) {
        COMPONENT_MEGAMENU
    }

    fn weight(&self) -> (w: Weight) {
        self.weight
    }

    fn is_renderable(&self, cx: &Context) -> (b: bool) {
        self.renderable.holds(cx)
    }

    fn default_render<T: ThemeTrait + ?Sized>(
        &mut self,
        cx: &mut Context,
        theme: &T,
        actions: &ActionsRegistry,
    ) -> (m: Markup) {
        let ghost fuel = ComponentView::Megamenu(self@).nesting();
        self.render_fueled(cx, theme, actions, Ghost(fuel))
    }
}

} // verus!
