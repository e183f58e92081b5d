//! An item of a menu.

use crate::base::component::html::Html;
use crate::base::component::menu::megamenu::Megamenu;
use crate::base::component::menu::submenu::Submenu;
use crate::action::{ActionsRegistry, ComponentChange, ComponentChangeView};
use crate::base::component::l10n::{L10n, L10nView};
use crate::component::{
    deepest, default_rendered, lemma_deepest, lemma_deepest_bound, lemma_view_of_kind, AnyComponent,
    ComponentTrait, ComponentView, ComponentsBundle, FnIsRenderable, IsRenderableView, Renderable,
    Rendered, COMPONENT_MENU_ITEM,
};
use crate::context::Context;
use crate::handle::Handle;
use crate::html::classes::Classes;
use crate::html::markup::{attr, escaped, opt_attr, Markup};
use crate::order::Weight;
use crate::theme::ThemeTrait;
use vstd::prelude::*;

verus! {

/// What an item of a menu is.
pub enum ItemType {
    /// Nothing at all.
    Void,
    /// A text.
    Label(L10n),
    /// A link to a path.
    Link(L10n, String),
    /// A link to a path that opens in a window of its own.
    LinkBlank(L10n, String),
    /// Markup.
    Html(Markup),
    /// A text that unfolds the submenu that the item holds.
    Submenu(L10n),
    /// A text that unfolds the megamenu that the item holds.
    Megamenu(L10n),
}

/// A `ItemType` as a mathematical value.
pub enum ItemTypeView {
    Void,
    Label(L10nView),
    Link(L10nView, Seq<char>),
    LinkBlank(L10nView, Seq<char>),
    Html(Seq<char>),
    Submenu(L10nView),
    Megamenu(L10nView),
}

impl View for ItemType {
    type V = ItemTypeView;

    open spec fn view(&self) -> ItemTypeView {
        match self {
            ItemType::Void => ItemTypeView::Void,
            ItemType::Label(l) => ItemTypeView::Label(l@),
            ItemType::Link(l, path) => ItemTypeView::Link(l@, path@),
            ItemType::LinkBlank(l, path) => ItemTypeView::LinkBlank(l@, path@),
            ItemType::Html(m) => ItemTypeView::Html(m@),
            ItemType::Submenu(l) => ItemTypeView::Submenu(l@),
            ItemType::Megamenu(l) => ItemTypeView::Megamenu(l@),
        }
    }
}

/// What an item writes in front of what it holds.
pub open spec fn item_open(t: ItemTypeView, title: Seq<char>, langid: Seq<char>) -> Seq<char> {
    match t {
        ItemTypeView::Void => Seq::empty(),
        ItemTypeView::Label(l) => "<li class=\"pt-menu__label\"><span"@ + title + ">"@ + l.markup(
            langid,
        ),
        ItemTypeView::Link(l, path) => "<li class=\"pt-menu__link\"><a"@ + attr("href"@, path)
            + title + ">"@ + l.markup(langid),
        ItemTypeView::LinkBlank(l, path) => "<li class=\"pt-menu__link\"><a"@ + attr(
            "href"@,
            path,
        ) + title + " target=\"_blank\">"@ + l.markup(langid),
        ItemTypeView::Html(m) => "<li class=\"pt-menu__html\">"@ + m,
        ItemTypeView::Submenu(l) => "<li class=\"pt-menu__children\"><a href=\"#\""@ + title
            + ">"@ + l.markup(langid)
            + "<i class=\"pt-menu__icon bi-chevron-down\"></i></a><div class=\"pt-menu__subs\">"@,
        ItemTypeView::Megamenu(l) => "<li class=\"pt-menu__children\"><a href=\"#\""@ + title
            + ">"@ + l.markup(langid)
            + "<i class=\"pt-menu__icon bi-chevron-down\"></i></a><div class=\"pt-menu__subs pt-menu__mega\">"@,
    }
}

/// What an item writes behind what it holds.
pub open spec fn item_close(t: ItemTypeView) -> Seq<char> {
    match t {
        ItemTypeView::Void => ""@,
        ItemTypeView::Label(_) => "</span></li>"@,
        ItemTypeView::Link(_, _) => "</a></li>"@,
        ItemTypeView::LinkBlank(_, _) => "</a></li>"@,
        ItemTypeView::Html(_) => "</li>"@,
        ItemTypeView::Submenu(_) => "</div></li>"@,
        ItemTypeView::Megamenu(_) => "</div></li>"@,
    }
}

/// Whether an item of this type shows what it holds.
pub open spec fn item_unfolds(t: ItemTypeView) -> bool {
    t is Submenu || t is Megamenu
}

/// A `Item` as a mathematical value.
pub struct ItemView {
    pub weight: Weight,
    pub renderable: IsRenderableView,
    pub item_type: ItemTypeView,
    pub description: L10nView,
    pub content: Seq<ComponentView>,
}

impl ItemView {
    /// The markup of the item in language `langid`. An item that unfolds a
    /// menu writes the markup `inner` of that menu; the other items show
    /// nothing of what they hold.
    pub open spec fn markup(self, inner: Seq<char>, langid: Seq<char>) -> Seq<char> {
        item_open(self.item_type, opt_attr("title"@, self.description.value(langid)), langid) + (
        if item_unfolds(self.item_type) {
            inner
        } else {
            Seq::empty()
        }) + item_close(self.item_type)
    }

    /// An item of type `t` that holds `content`.
    pub open spec fn of_type(t: ItemTypeView, content: Seq<ComponentView>) -> ItemView {
        ItemView { item_type: t, content: content, ..Self::initial() }
    }

    /// The component as `Item::new` makes it.
    pub open spec fn initial() -> ItemView {
        ItemView {
            weight: 0,
            renderable: IsRenderableView::Always,
            item_type: ItemTypeView::Void,
            description: L10nView::empty(),
            content: Seq::empty(),
        }
    }

    /// The component after `change`; a change it has no use for leaves it as it is.
    pub open spec fn changed(self, change: ComponentChangeView) -> ItemView {
        match change {
            ComponentChangeView::Id(id) => self,
            ComponentChangeView::Classes(op, classes) => self,
            ComponentChangeView::Weight(w) => ItemView { weight: w, ..self },
            ComponentChangeView::Renderable(r) => ItemView { renderable: r, ..self },
        }
    }
}

/// An item of a menu.
pub struct Item {
    pub(crate) weight: Weight,
    pub(crate) renderable: Renderable,
    pub(crate) item_type: ItemType,
    pub(crate) description: L10n,
    pub(crate) content: ComponentsBundle,
}

impl View for Item {
    type V = ItemView;

    closed spec fn view(&self) -> ItemView
        decreases self,
    {
        ItemView {
            weight: self.weight,
            renderable: self.renderable@,
            item_type: self.item_type@,
            description: self.description@,
            content: self.content.view(),
        }
    }
}

impl Item {
    fn of_type(t: ItemType) -> (r: Self)
        ensures
            r@ == ItemView::of_type(t@, Seq::empty()),
    {
        let mut i = <Item as ComponentTrait>::new();
        i.item_type = t;
        i
    }

    /// An item that is a text.
    pub fn label(label: L10n) -> (r: Self)
        ensures
            r@ == ItemView::of_type(ItemTypeView::Label(label@), Seq::empty()),
    {
        Item::of_type(ItemType::Label(label))
    }

    /// An item that links to `path`.
    pub fn link(label: L10n, path: &str) -> (r: Self)
        ensures
            r@ == ItemView::of_type(ItemTypeView::Link(label@, path@), Seq::empty()),
    {
        Item::of_type(ItemType::Link(label, path.to_owned()))
    }

    /// An item that links to `path` and opens it in a window of its own.
    pub fn link_blank(label: L10n, path: &str) -> (r: Self)
        ensures
            r@ == ItemView::of_type(ItemTypeView::LinkBlank(label@, path@), Seq::empty()),
    {
        Item::of_type(ItemType::LinkBlank(label, path.to_owned()))
    }

    /// An item that is markup.
    pub fn html(content: Html) -> (r: Self)
        ensures
            r@ == ItemView::of_type(ItemTypeView::Html(content@.html), Seq::empty()),
    {
        Item::of_type(ItemType::Html(content.prepare()))
    }

    /// An item that unfolds `submenu`.
    pub fn submenu(label: L10n, submenu: Submenu) -> (r: Self)
        ensures
            r@ == ItemView::of_type(
                ItemTypeView::Submenu(label@),
                seq![ComponentView::Submenu(submenu@)],
            ),
    {
        let mut i = Item::of_type(ItemType::Submenu(label));
        let any = AnyComponent::Submenu(submenu);
        proof {
            lemma_view_of_kind(any);
        }
        i.content.add(any);
        assert(i@.content == seq![ComponentView::Submenu(submenu@)]);
        i
    }

    /// An item that unfolds `megamenu`.
    pub fn megamenu(label: L10n, megamenu: Megamenu) -> (r: Self)
        ensures
            r@ == ItemView::of_type(
                ItemTypeView::Megamenu(label@),
                seq![ComponentView::Megamenu(megamenu@)],
            ),
    {
        let mut i = Item::of_type(ItemType::Megamenu(label));
        let any = AnyComponent::Megamenu(megamenu);
        proof {
            lemma_view_of_kind(any);
        }
        i.content.add(any);
        assert(i@.content == seq![ComponentView::Megamenu(megamenu@)]);
        i
    }

    pub fn alter_weight(&mut self, value: Weight) -> (r: &mut Self)
        ensures
            r@ == (ItemView { weight: value, ..old(self)@ }),
            *final(self) == *final(r),
    {
        self.weight = value;
        self
    }

    pub fn with_weight(self, value: Weight) -> (r: Self)
        ensures
            r@ == (ItemView { weight: value, ..self@ }),
    {
        let mut c = self;
        c.alter_weight(value);
        c
    }

    pub fn alter_renderable(&mut self, check: FnIsRenderable) -> (r: &mut Self)
        ensures
            r@ == (ItemView { renderable: check@, ..old(self)@ }),
            *final(self) == *final(r),
    {
        self.renderable.check = check;
        self
    }

    pub fn with_renderable(self, check: FnIsRenderable) -> (r: Self)
        ensures
            r@ == (ItemView { renderable: check@, ..self@ }),
    {
        let mut c = self;
        c.alter_renderable(check);
        c
    }

    pub fn alter_description(&mut self, description: L10n) -> (r: &mut Self)
        ensures
            r@ == (ItemView { description: description@, ..old(self)@ }),
            *final(self) == *final(r),
    {
        self.description = description;
        self
    }

    pub fn with_description(self, description: L10n) -> (r: Self)
        ensures
            r@ == (ItemView { description: description@, ..self@ }),
    {
        let mut c = self;
        c.alter_description(description);
        c
    }

    pub fn item_type(&self) -> (r: &ItemType)
        ensures
            r@ == self@.item_type,
    {
        &self.item_type
    }

    pub fn description(&self) -> (r: &L10n)
        ensures
            r@ == self@.description,
    {
        &self.description
    }

    pub fn content(&self) -> (r: &ComponentsBundle)
        ensures
            r@ == self@.content,
    {
        &self.content
    }

    /// Applies `change` to the component.
    pub fn apply(&mut self, change: &ComponentChange)
        ensures
            final(self)@ == old(self)@.changed(change@),
    {
        match change {
            ComponentChange::Id(id) => {},
            ComponentChange::Classes(op, classes) => {},
            ComponentChange::Weight(w) => {
                self.alter_weight(*w);
            },
            ComponentChange::Renderable(r) => {
                self.alter_renderable(r.duplicate());
            },
        }
    }

    /// Renders what the item holds and writes the item.
    pub(crate) fn render_fueled<T: ThemeTrait + ?Sized>(
        &mut self,
        cx: &mut Context,
        theme: &T,
        actions: &ActionsRegistry,
        Ghost(fuel): Ghost<nat>,
    ) -> (m: Markup)
        requires
            ComponentView::MenuItem(old(self)@).nesting() <= fuel,
        ensures
            (Rendered {
                markup: m@,
                component: ComponentView::MenuItem(final(self)@),
                context: final(cx)@,
            }) == default_rendered(
                theme,
                actions,
                ComponentView::MenuItem(old(self)@),
                old(cx)@,
                fuel,
            ),
            ComponentView::MenuItem(final(self)@).nesting() <= ComponentView::MenuItem(
                old(self)@,
            ).nesting(),
        decreases fuel, 1nat, 0nat,
    {
        let ghost before = self@;
        let ghost lang = cx@.langid;
        proof {
            assert forall|i: int| 0 <= i < before.content.len() implies (
            #[trigger] before.content[i]).nesting() <= fuel - 1 by {
                lemma_deepest(before.content, i);
            }
        }
        let description = self.description.using(cx.langid());
        let mut title = Markup::new();
        title.push_opt_attr("title", &description);
        assert(title@ == opt_attr("title"@, before.description.value(lang)));
        let mut m = Markup::new();
        let mut unfolds = false;
        let mut close: &'static str = "";
        match &self.item_type {
            ItemType::Void => {},
            ItemType::Label(label) => {
                m.push_raw("<li class=\"pt-menu__label\"><span");
                m.push(&title);
                m.push_raw(">");
                m.push(&label.escaped(cx.langid()));
                close = "</span></li>";
            },
            ItemType::Link(label, path) => {
                m.push_raw("<li class=\"pt-menu__link\"><a");
                m.push_attr("href", path.as_str());
                m.push(&title);
                m.push_raw(">");
                m.push(&label.escaped(cx.langid()));
                close = "</a></li>";
            },
            ItemType::LinkBlank(label, path) => {
                m.push_raw("<li class=\"pt-menu__link\"><a");
                m.push_attr("href", path.as_str());
                m.push(&title);
                m.push_raw(" target=\"_blank\">");
                m.push(&label.escaped(cx.langid()));
                close = "</a></li>";
            },
            ItemType::Html(content) => {
                m.push_raw("<li class=\"pt-menu__html\">");
                m.push(content);
                close = "</li>";
            },
            ItemType::Submenu(label) => {
                m.push_raw("<li class=\"pt-menu__children\"><a href=\"#\"");
                m.push(&title);
                m.push_raw(">");
                m.push(&label.escaped(cx.langid()));
                m.push_raw(
                    "<i class=\"pt-menu__icon bi-chevron-down\"></i></a><div class=\"pt-menu__subs\">",
                );
                close = "</div></li>";
                unfolds = true;
            },
            ItemType::Megamenu(label) => {
                m.push_raw("<li class=\"pt-menu__children\"><a href=\"#\"");
                m.push(&title);
                m.push_raw(">");
                m.push(&label.escaped(cx.langid()));
                m.push_raw(
                    "<i class=\"pt-menu__icon bi-chevron-down\"></i></a><div class=\"pt-menu__subs pt-menu__mega\">",
                );
                close = "</div></li>";
                unfolds = true;
            },
        }
        assert(m@ == item_open(before.item_type, title@, lang));
        assert(close@ == item_close(before.item_type));
        assert(unfolds == item_unfolds(before.item_type));
        let inner = self.content.render_fueled(cx, theme, actions, Ghost((fuel - 1) as nat));
        proof {
            assert(self@ == (ItemView { content: self@.content, ..before }));
            assert forall|i: int| 0 <= i < self@.content.len() implies (
            #[trigger] self@.content[i]).nesting() <= deepest(before.content) by {
                lemma_deepest(before.content, i);
            }
            lemma_deepest_bound(self@.content, deepest(before.content));
        }
        if unfolds {
            m.push(&inner);
        } else {
            assert(m@ + Seq::<char>::empty() == m@);
        }
        m.push_raw(close);
        assert(m@ == before.markup(inner@, lang));
        m
    }
}

impl ComponentTrait for Item {
    open spec fn as_view(&self) -> ComponentView {
        ComponentView::MenuItem(self@)
    }

    open spec fn is_kind(c: ComponentView) -> bool {
        c is MenuItem
    }

    fn from_any(component: &AnyComponent) -> (r: Option<&Self>) {
        proof {
            lemma_view_of_kind(*component);
        }
        match component {
            AnyComponent::MenuItem(c) => Some(c),
            _ => None,
        }
    }

    fn from_any_mut(component: &mut AnyComponent) -> (r: Option<&mut Self>) {
        proof {
            lemma_view_of_kind(*component);
        }
        match component {
            AnyComponent::MenuItem(c) => {
                proof {
                    lemma_view_of_kind(AnyComponent::MenuItem(*final(c)));
                }
                Some(c)
            },
            _ => None,
        }
    }

    fn new() -> (r: Self)
        ensures
            r@ == ItemView::initial(),
    {
        Item {
            weight: 0,
            renderable: Renderable::new(),
            item_type: ItemType::Void,
            description: L10n::new(),
            content: ComponentsBundle::new(),
        }
    }

    fn handle(&self) -> (h: Handle) {
        COMPONENT_MENU_ITEM
    }

    fn weight(&self) -> (w: Weight) {
        self.weight
    }

    fn is_renderable(&self, cx: &Context) -> (b: bool) {
        self.renderable.holds(cx)
    }

    fn default_render<T: ThemeTrait + ?Sized>(
        &mut self,
        cx: &mut Context,
        theme: &T,
        actions: &ActionsRegistry,
    ) -> (m: Markup) {
        let ghost fuel = ComponentView::MenuItem(self@).nesting();
        self.render_fueled(cx, theme, actions, Ghost(fuel))
    }
}

} // verus!
