//! The items that unfold below an item of a menu.

use crate::base::component::menu::item::Item;
use crate::action::{ActionsRegistry, ComponentChange, ComponentChangeView};
use crate::base::component::l10n::{L10n, L10nView};
use crate::component::{
    bundle_altered, deepest, default_rendered, lemma_deepest, lemma_deepest_bound,
    lemma_view_of_kind, AnyComponent, BundleOp, ComponentTrait, ComponentView, ComponentsBundle,
    FnIsRenderable, IsRenderableView, Renderable, Rendered, COMPONENT_SUBMENU,
};
use crate::context::Context;
use crate::handle::Handle;
use crate::html::classes::Classes;
use crate::html::markup::{escaped, opt_attr, Markup};
use crate::html::opt_id::{identifier, non_empty, OptionId};
use crate::order::Weight;
use crate::theme::ThemeTrait;
use vstd::prelude::*;

verus! {

/// A `Submenu` as a mathematical value.
pub struct SubmenuView {
    pub weight: Weight,
    pub renderable: IsRenderableView,
    pub id: Option<Seq<char>>,
    pub title: L10nView,
    pub items: Seq<ComponentView>,
}

/// The title above the items, if there is one.
pub open spec fn submenu_title(title: Option<Seq<char>>) -> Seq<char> {
    match title {
        Some(t) => "<h4 class=\"pt-menu__title\">"@ + escaped(t) + "</h4>"@,
        None => Seq::empty(),
    }
}

impl SubmenuView {
    /// The markup of the submenu in language `langid`, around the markup
    /// `inner` of its items.
    pub open spec fn markup(self, inner: Seq<char>, langid: Seq<char>) -> Seq<char> {
        "<div"@ + opt_attr("id"@, self.id) + " class=\"pt-menu__items\">"@ + submenu_title(
            self.title.value(langid),
        ) + "<ul>"@ + inner + "</ul></div>"@
    }

    /// The component as `Submenu::new` makes it.
    pub open spec fn initial() -> SubmenuView {
        SubmenuView {
            weight: 0,
            renderable: IsRenderableView::Always,
            id: None,
            title: L10nView::empty(),
            items: Seq::empty(),
        }
    }

    /// The component after `change`; a change it has no use for leaves it as it is.
    pub open spec fn changed(self, change: ComponentChangeView) -> SubmenuView {
        match change {
            ComponentChangeView::Id(id) => SubmenuView { id: non_empty(identifier(id)), ..self },
            ComponentChangeView::Classes(op, classes) => self,
            ComponentChangeView::Weight(w) => SubmenuView { weight: w, ..self },
            ComponentChangeView::Renderable(r) => SubmenuView { renderable: r, ..self },
        }
    }
}

/// The items that unfold below an item of a menu.
pub struct Submenu {
    pub(crate) weight: Weight,
    pub(crate) renderable: Renderable,
    pub(crate) id: OptionId,
    pub(crate) title: L10n,
    pub(crate) items: ComponentsBundle,
}

impl View for Submenu {
    type V = SubmenuView;

    closed spec fn view(&self) -> SubmenuView
        decreases self,
    {
        SubmenuView {
            weight: self.weight,
            renderable: self.renderable@,
            id: self.id@,
            title: self.title@,
            items: self.items.view(),
        }
    }
}

impl Submenu {
    pub fn alter_weight(&mut self, value: Weight) -> (r: &mut Self)
        ensures
            r@ == (SubmenuView { weight: value, ..old(self)@ }),
            *final(self) == *final(r),
    {
        self.weight = value;
        self
    }

    pub fn with_weight(self, value: Weight) -> (r: Self)
        ensures
            r@ == (SubmenuView { weight: value, ..self@ }),
    {
        let mut c = self;
        c.alter_weight(value);
        c
    }

    pub fn alter_renderable(&mut self, check: FnIsRenderable) -> (r: &mut Self)
        ensures
            r@ == (SubmenuView { renderable: check@, ..old(self)@ }),
            *final(self) == *final(r),
    {
        self.renderable.check = check;
        self
    }

    pub fn with_renderable(self, check: FnIsRenderable) -> (r: Self)
        ensures
            r@ == (SubmenuView { renderable: check@, ..self@ }),
    {
        let mut c = self;
        c.alter_renderable(check);
        c
    }

    pub fn alter_id(&mut self, id: &str) -> (r: &mut Self)
        ensures
            r@ == (SubmenuView { id: non_empty(identifier(id@)), ..old(self)@ }),
            *final(self) == *final(r),
    {
        self.id.alter_value(id);
        self
    }

    pub fn with_id(self, id: &str) -> (r: Self)
        ensures
            r@ == (SubmenuView { id: non_empty(identifier(id@)), ..self@ }),
    {
        let mut c = self;
        c.alter_id(id);
        c
    }

    pub fn alter_title(&mut self, title: L10n) -> (r: &mut Self)
        ensures
            r@ == (SubmenuView { title: title@, ..old(self)@ }),
            *final(self) == *final(r),
    {
        self.title = title;
        self
    }

    pub fn with_title(self, title: L10n) -> (r: Self)
        ensures
            r@ == (SubmenuView { title: title@, ..self@ }),
    {
        let mut c = self;
        c.alter_title(title);
        c
    }

    /// Puts `item` behind the items of the submenu.
    pub fn add_item(self, item: Item) -> (r: Self)
        ensures
            r@ == (SubmenuView {
                items: self@.items.push(ComponentView::MenuItem(item@)),
                ..self@
            }),
    {
        let mut c = self;
        let any = AnyComponent::MenuItem(item);
        proof {
            lemma_view_of_kind(any);
        }
        c.items.add(any);
        c
    }

    pub fn alter_items(&mut self, op: BundleOp, item: Item) -> (r: &mut Self)
        ensures
            r@ == (SubmenuView {
                items: bundle_altered(old(self)@.items, op, ComponentView::MenuItem(item@)),
                ..old(self)@
            }),
            *final(self) == *final(r),
    {
        let any = AnyComponent::MenuItem(item);
        proof {
            lemma_view_of_kind(any);
        }
        self.items.alter_bundle(op, any);
        self
    }

    pub fn with_items(self, op: BundleOp, item: Item) -> (r: Self)
        ensures
            r@ == (SubmenuView {
                items: bundle_altered(self@.items, op, ComponentView::MenuItem(item@)),
                ..self@
            }),
    {
        let mut c = self;
        c.alter_items(op, item);
        c
    }

    pub fn id(&self) -> (r: &OptionId)
        ensures
            r@ == self@.id,
    {
        &self.id
    }

    pub fn title(&self) -> (r: &L10n)
        ensures
            r@ == self@.title,
    {
        &self.title
    }

    pub fn items(&self) -> (r: &ComponentsBundle)
        ensures
            r@ == self@.items,
    {
        &self.items
    }

    /// Applies `change` to the component.
    pub fn apply(&mut self, change: &ComponentChange)
        ensures
            final(self)@ == old(self)@.changed(change@),
    {
        match change {
            ComponentChange::Id(id) => {
                self.alter_id(id.as_str());
            },
            ComponentChange::Classes(op, classes) => {},
            ComponentChange::Weight(w) => {
                self.alter_weight(*w);
            },
            ComponentChange::Renderable(r) => {
                self.alter_renderable(r.duplicate());
            },
        }
    }

    /// Renders what the component holds and writes the component around it.
    pub(crate) fn render_fueled<T: ThemeTrait + ?Sized>(
        &mut self,
        cx: &mut Context,
        theme: &T,
        actions: &ActionsRegistry,
        Ghost(fuel): Ghost<nat>,
    ) -> (m: Markup)
        requires
            ComponentView::Submenu(old(self)@).nesting() <= fuel,
        ensures
            (Rendered {
                markup: m@,
                component: ComponentView::Submenu(final(self)@),
                context: final(cx)@,
            }) == default_rendered(
                theme,
                actions,
                ComponentView::Submenu(old(self)@),
                old(cx)@,
                fuel,
            ),
            ComponentView::Submenu(final(self)@).nesting() <= ComponentView::Submenu(
                old(self)@,
            ).nesting(),
        decreases fuel, 1nat, 0nat,
    {
        let ghost before = self@;
        let ghost lang = cx@.langid;
        proof {
            assert forall|i: int| 0 <= i < before.items.len() implies (
            #[trigger] before.items[i]).nesting() <= fuel - 1 by {
                lemma_deepest(before.items, i);
            }
        }
        let id = self.id.get();
        let title = self.title.using(cx.langid());
        let inner = self.items.render_fueled(cx, theme, actions, Ghost((fuel - 1) as nat));
        proof {
            assert(self@ == (SubmenuView { items: self@.items, ..before }));
            assert forall|i: int| 0 <= i < self@.items.len() implies (
            #[trigger] self@.items[i]).nesting() <= deepest(before.items) by {
                lemma_deepest(before.items, i);
            }
            lemma_deepest_bound(self@.items, deepest(before.items));
        }
        let mut m = Markup::raw("<div");
        m.push_opt_attr("id", &id);
        m.push_raw(" class=\"pt-menu__items\">");
        let ghost head = m@;
        match &title {
            Some(t) => {
                m.push_raw("<h4 class=\"pt-menu__title\">");
                m.push_text(t.as_str());
                m.push_raw("</h4>");
                assert(m@ == head + submenu_title(Some(t@)));
            },
            None => {
                assert(m@ + Seq::<char>::empty() == m@);
            },
        }
        m.push_raw("<ul>");
        m.push(&inner);
        m.push_raw("</ul></div>");
        assert(m@ == before.markup(inner@, lang));
        m
    }
}

impl ComponentTrait for Submenu {
    open spec fn as_view(&self) -> ComponentView {
        ComponentView::Submenu(self@)
    }

    open spec fn is_kind(c: ComponentView) -> bool {
        c is Submenu
    }

    fn from_any(component: &AnyComponent) -> (r: Option<&Self>) {
        proof {
            lemma_view_of_kind(*component);
        }
        match component {
            AnyComponent::Submenu(c) => Some(c),
            _ => None,
        }
    }

    fn from_any_mut(component: &mut AnyComponent) -> (r: Option<&mut Self>) {
        proof {
            lemma_view_of_kind(*component);
        }
        match component {
            AnyComponent::Submenu(c) => {
                proof {
                    lemma_view_of_kind(AnyComponent::Submenu(*final(c)));
                }
                Some(c)
            },
            _ => None,
        }
    }

    fn new() -> (r: Self)
        ensures
            r@ == SubmenuView::initial(),
    {
        Submenu {
            weight: 0,
            renderable: Renderable::new(),
            id: OptionId::new(),
            title: L10n::new(),
            items: ComponentsBundle::new(),
        }
    }

    fn handle(&self) -> (h: Handle) {
        COMPONENT_SUBMENU
    }

    fn weight(&self) -> (w: Weight) {
        self.weight
    }

    fn is_renderable(&self, cx: &Context) -> (b: bool) {
        self.renderable.holds(cx)
    }

    fn default_render<T: ThemeTrait + ?Sized>(
        &mut self,
        cx: &mut Context,
        theme: &T,
        actions: &ActionsRegistry,
    ) -> (m: Markup) {
        let ghost fuel = ComponentView::Submenu(self@).nesting();
        self.render_fueled(cx, theme, actions, Ghost(fuel))
    }
}

} // verus!
