//! Components: the units a page is made of, the bundles that hold them, and
//! the pipeline that turns one into markup.

use crate::action::{
    ActionsRegistry, ComponentChange, ComponentChangeView, ACTION_AFTER_RENDER_COMPONENT,
    ACTION_BEFORE_RENDER_COMPONENT,
};
use crate::base::component::button::{Button, ButtonView};
use crate::base::component::container::{Container, ContainerView};
use crate::base::component::error404::{error404_markup, Error404};
use crate::base::component::flex::item::{Item as FlexItem, ItemView as FlexItemView};
use crate::base::component::form::{Form, FormView};
use crate::base::component::heading::{Heading, HeadingView};
use crate::base::component::hidden::{Hidden, HiddenView};
use crate::base::component::html::{Html, HtmlView};
use crate::base::component::input::{Input, InputView};
use crate::base::component::l10n::{L10n, L10nView};
use crate::base::component::menu::item::{Item, ItemView};
use crate::base::component::menu::megamenu::{Megamenu, MegamenuView};
use crate::base::component::menu::submenu::{Submenu, SubmenuView};
use crate::base::component::paragraph::{Paragraph, ParagraphView};
use crate::base::component::row::{Row, RowView};
use crate::context::{Context, ContextView};
use crate::handle::Handle;
use crate::html::markup::{opt_view, Markup};
use crate::order::{indices, order_by_weight, stable_order, Weight};
use crate::theme::ThemeTrait;
use vstd::prelude::*;

verus! {

/// The handle of the components of the kind `Html`.
pub const COMPONENT_HTML: Handle = 0x8000_0000_0000_1001;

/// The handle of the components of the kind `Translate`.
pub const COMPONENT_L10N: Handle = 0x8000_0000_0000_1002;

/// The handle of the components of the kind `Container`.
pub const COMPONENT_CONTAINER: Handle = 0x8000_0000_0000_1003;

/// The handle of the components of the kind `Heading`.
pub const COMPONENT_HEADING: Handle = 0x8000_0000_0000_1004;

/// The handle of the components of the kind `Form`.
pub const COMPONENT_FORM: Handle = 0x8000_0000_0000_1005;

/// The handle of the components of the kind `Row`.
pub const COMPONENT_ROW: Handle = 0x8000_0000_0000_1006;

/// The handle of the components of the kind `Paragraph`.
pub const COMPONENT_PARAGRAPH: Handle = 0x8000_0000_0000_1007;

/// The handle of the components of the kind `Megamenu`.
pub const COMPONENT_MEGAMENU: Handle = 0x8000_0000_0000_1008;

/// The handle of the components of the kind `Submenu`.
pub const COMPONENT_SUBMENU: Handle = 0x8000_0000_0000_1009;

/// The handle of the components of the kind `MenuItem`.
pub const COMPONENT_MENU_ITEM: Handle = 0x8000_0000_0000_100a;

/// The handle of the components of the kind `FlexItem`.
pub const COMPONENT_FLEX_ITEM: Handle = 0x8000_0000_0000_100b;

/// The handle of the components of the kind `Button`.
pub const COMPONENT_BUTTON: Handle = 0x8000_0000_0000_100c;

/// The handle of the components of the kind `Hidden`.
pub const COMPONENT_HIDDEN: Handle = 0x8000_0000_0000_100d;

/// The handle of the components of the kind `Input`.
pub const COMPONENT_INPUT: Handle = 0x8000_0000_0000_100e;

/// The handle of the components of the kind `Error404`.
pub const COMPONENT_ERROR404: Handle = 0x8000_0000_0000_100f;

/// A condition on the context that decides whether a component is rendered.
pub enum IsRenderable {
    /// In every context.
    Always,
    /// In no context.
    Never,
    /// While the page is rendered in this language.
    InLanguage(String),
    /// While the page is rendered in another language than this.
    NotInLanguage(String),
}

/// A condition on the context.
pub type FnIsRenderable = IsRenderable;

/// A `IsRenderable` as a mathematical value.
pub enum IsRenderableView {
    Always,
    Never,
    InLanguage(Seq<char>),
    NotInLanguage(Seq<char>),
}

impl IsRenderableView {
    /// Whether the condition holds in `cx`.
    pub open spec fn holds(self, cx: ContextView) -> bool {
        match self {
            IsRenderableView::Always => true,
            IsRenderableView::Never => false,
            IsRenderableView::InLanguage(l) => cx.langid == l,
            IsRenderableView::NotInLanguage(l) => cx.langid != l,
        }
    }
}

impl View for IsRenderable {
    type V = IsRenderableView;

    open spec fn view(&self) -> IsRenderableView {
        match self {
            IsRenderable::Always => IsRenderableView::Always,
            IsRenderable::Never => IsRenderableView::Never,
            IsRenderable::InLanguage(l) => IsRenderableView::InLanguage(l@),
            IsRenderable::NotInLanguage(l) => IsRenderableView::NotInLanguage(l@),
        }
    }
}

impl IsRenderable {
    pub fn duplicate(&self) -> (r: Self)
        ensures
            r@ == self@,
    {
        match self {
            IsRenderable::Always => IsRenderable::Always,
            IsRenderable::Never => IsRenderable::Never,
            IsRenderable::InLanguage(l) => IsRenderable::InLanguage(l.clone()),
            IsRenderable::NotInLanguage(l) => IsRenderable::NotInLanguage(l.clone()),
        }
    }

    pub fn check(&self, cx: &Context) -> (b: bool)
        ensures
            b == self@.holds(cx@),
    {
        match self {
            IsRenderable::Always => true,
            IsRenderable::Never => false,
            IsRenderable::InLanguage(l) => cx.langid().to_owned() == *l,
            IsRenderable::NotInLanguage(l) => !(cx.langid().to_owned() == *l),
        }
    }
}

/// The condition that always holds.
pub fn render_always() -> (r: IsRenderable)
    ensures
        r@ == IsRenderableView::Always,
{
    IsRenderable::Always
}

/// The renderability of a component.
pub struct Renderable {
    pub check: IsRenderable,
}

impl View for Renderable {
    type V = IsRenderableView;

    open spec fn view(&self) -> IsRenderableView {
        self.check@
    }
}

impl Renderable {
    /// Renderable in every context.
    pub fn new() -> (r: Self)
        ensures
            r@ == IsRenderableView::Always,
    {
        Renderable { check: IsRenderable::Always }
    }

    pub fn holds(&self, cx: &Context) -> (b: bool)
        ensures
            b == self@.holds(cx@),
    {
        self.check.check(cx)
    }
}

/// A component of any of the kinds that the framework knows.
pub enum AnyComponent {
    Html(Html),
    Translate(L10n),
    Container(Container),
    Heading(Heading),
    Form(Form),
    Row(Row),
    Paragraph(Paragraph),
    Megamenu(Megamenu),
    Submenu(Submenu),
    MenuItem(Item),
    FlexItem(FlexItem),
    Button(Button),
    Hidden(Hidden),
    Input(Input),
    Error404(Error404),
}

pub enum ComponentView {
    Html(HtmlView),
    Translate(L10nView),
    Container(ContainerView),
    Heading(HeadingView),
    Form(FormView),
    Row(RowView),
    Paragraph(ParagraphView),
    Megamenu(MegamenuView),
    Submenu(SubmenuView),
    MenuItem(ItemView),
    FlexItem(FlexItemView),
    Button(ButtonView),
    Hidden(HiddenView),
    Input(InputView),
    Error404,
}

/// The deepest nesting among `items`.
pub open spec fn deepest(items: Seq<ComponentView>) -> nat
    decreases items,
{
    if items.len() == 0 {
        0
    } else {
        let a = items.last().nesting();
        let b = deepest(items.drop_last());
        if a > b {
            a
        } else {
            b
        }
    }
}

pub open spec fn weights_of(items: Seq<ComponentView>) -> Seq<Weight> {
    items.map_values(|c: ComponentView| c.weight())
}

impl ComponentView {
    /// The handle of the component's kind.
    pub open spec fn handle(self) -> Handle {
        match self {
            ComponentView::Html(_) => COMPONENT_HTML,
            ComponentView::Translate(_) => COMPONENT_L10N,
            ComponentView::Container(_) => COMPONENT_CONTAINER,
            ComponentView::Heading(_) => COMPONENT_HEADING,
            ComponentView::Form(_) => COMPONENT_FORM,
            ComponentView::Row(_) => COMPONENT_ROW,
            ComponentView::Paragraph(_) => COMPONENT_PARAGRAPH,
            ComponentView::Megamenu(_) => COMPONENT_MEGAMENU,
            ComponentView::Submenu(_) => COMPONENT_SUBMENU,
            ComponentView::MenuItem(_) => COMPONENT_MENU_ITEM,
            ComponentView::FlexItem(_) => COMPONENT_FLEX_ITEM,
            ComponentView::Button(_) => COMPONENT_BUTTON,
            ComponentView::Hidden(_) => COMPONENT_HIDDEN,
            ComponentView::Input(_) => COMPONENT_INPUT,
            ComponentView::Error404 => COMPONENT_ERROR404,
        }
    }

    pub open spec fn weight(self) -> Weight {
        match self {
            ComponentView::Container(v) => v.weight,
            ComponentView::Heading(v) => v.weight,
            ComponentView::Form(v) => v.weight,
            ComponentView::Row(v) => v.weight,
            ComponentView::Paragraph(v) => v.weight,
            ComponentView::Megamenu(v) => v.weight,
            ComponentView::Submenu(v) => v.weight,
            ComponentView::MenuItem(v) => v.weight,
            ComponentView::FlexItem(v) => v.weight,
            ComponentView::Button(v) => v.weight,
            ComponentView::Hidden(v) => v.weight,
            ComponentView::Input(v) => v.weight,
            _ => 0,
        }
    }

    pub open spec fn id(self) -> Option<Seq<char>> {
        match self {
            ComponentView::Container(v) => v.id,
            ComponentView::Heading(v) => v.id,
            ComponentView::Form(v) => v.id,
            ComponentView::Row(v) => v.id,
            ComponentView::Paragraph(v) => v.id,
            ComponentView::Megamenu(v) => v.id,
            ComponentView::Submenu(v) => v.id,
            ComponentView::FlexItem(v) => v.id,
            _ => None,
        }
    }

    /// Whether the component is to be rendered in `cx`.
    pub open spec fn renderable(self, cx: ContextView) -> bool {
        match self {
            ComponentView::Container(v) => v.renderable.holds(cx),
            ComponentView::Heading(v) => v.renderable.holds(cx),
            ComponentView::Form(v) => v.renderable.holds(cx),
            ComponentView::Row(v) => v.renderable.holds(cx),
            ComponentView::Paragraph(v) => v.renderable.holds(cx),
            ComponentView::Megamenu(v) => v.renderable.holds(cx),
            ComponentView::Submenu(v) => v.renderable.holds(cx),
            ComponentView::MenuItem(v) => v.renderable.holds(cx),
            ComponentView::FlexItem(v) => v.renderable.holds(cx),
            ComponentView::Button(v) => v.renderable.holds(cx),
            ComponentView::Input(v) => v.renderable.holds(cx),
            _ => true,
        }
    }

    /// The components that this one holds, if it is of a kind that holds any.
    pub open spec fn children(self) -> Option<Seq<ComponentView>> {
        match self {
            ComponentView::Container(v) => Some(v.components),
            ComponentView::Form(v) => Some(v.elements),
            ComponentView::Row(v) => Some(v.columns),
            ComponentView::Paragraph(v) => Some(v.stuff),
            ComponentView::Megamenu(v) => Some(v.groups),
            ComponentView::Submenu(v) => Some(v.items),
            ComponentView::MenuItem(v) => Some(v.content),
            ComponentView::FlexItem(v) => Some(v.stuff),
            _ => None,
        }
    }

    /// The component with `kids` in the place of those it holds.
    pub open spec fn with_children(self, kids: Seq<ComponentView>) -> ComponentView {
        match self {
            ComponentView::Container(v) => ComponentView::Container(
                ContainerView { components: kids, ..v },
            ),
            ComponentView::Form(v) => ComponentView::Form(
                FormView { elements: kids, ..v },
            ),
            ComponentView::Row(v) => ComponentView::Row(
                RowView { columns: kids, ..v },
            ),
            ComponentView::Paragraph(v) => ComponentView::Paragraph(
                ParagraphView { stuff: kids, ..v },
            ),
            ComponentView::Megamenu(v) => ComponentView::Megamenu(
                MegamenuView { groups: kids, ..v },
            ),
            ComponentView::Submenu(v) => ComponentView::Submenu(
                SubmenuView { items: kids, ..v },
            ),
            ComponentView::MenuItem(v) => ComponentView::MenuItem(
                ItemView { content: kids, ..v },
            ),
            ComponentView::FlexItem(v) => ComponentView::FlexItem(
                FlexItemView { stuff: kids, ..v },
            ),
            _ => self,
        }
    }

    /// What the component's own renderer writes in language `langid`, around
    /// the markup `inner` of the components it holds.
    pub open spec fn markup(self, inner: Seq<char>, langid: Seq<char>) -> Seq<char> {
        match self {
            ComponentView::Html(v) => v.html,
            ComponentView::Translate(v) => v.markup(langid),
            ComponentView::Container(v) => v.markup(inner),
            ComponentView::Heading(v) => v.markup(langid),
            ComponentView::Form(v) => v.markup(inner),
            ComponentView::Row(v) => v.markup(inner),
            ComponentView::Paragraph(v) => v.markup(inner),
            ComponentView::Megamenu(v) => v.markup(inner),
            ComponentView::Submenu(v) => v.markup(inner, langid),
            ComponentView::MenuItem(v) => v.markup(inner, langid),
            ComponentView::FlexItem(v) => v.markup(inner),
            ComponentView::Button(v) => v.markup(langid),
            ComponentView::Hidden(v) => v.markup(langid),
            ComponentView::Input(v) => v.markup(langid),
            ComponentView::Error404 => error404_markup(),
        }
    }

    /// The component after `change`. A change that the component's kind has
    /// no use for leaves it as it is.
    pub open spec fn changed(self, change: ComponentChangeView) -> ComponentView {
        match self {
            ComponentView::Container(v) => ComponentView::Container(v.changed(change)),
            ComponentView::Heading(v) => ComponentView::Heading(v.changed(change)),
            ComponentView::Form(v) => ComponentView::Form(v.changed(change)),
            ComponentView::Row(v) => ComponentView::Row(v.changed(change)),
            ComponentView::Paragraph(v) => ComponentView::Paragraph(v.changed(change)),
            ComponentView::Megamenu(v) => ComponentView::Megamenu(v.changed(change)),
            ComponentView::Submenu(v) => ComponentView::Submenu(v.changed(change)),
            ComponentView::MenuItem(v) => ComponentView::MenuItem(v.changed(change)),
            ComponentView::FlexItem(v) => ComponentView::FlexItem(v.changed(change)),
            ComponentView::Button(v) => ComponentView::Button(v.changed(change)),
            ComponentView::Hidden(v) => ComponentView::Hidden(v.changed(change)),
            ComponentView::Input(v) => ComponentView::Input(v.changed(change)),
            _ => self,
        }
    }

    /// How many levels of components are nested in this one.
    pub open spec fn nesting(self) -> nat
        decreases self,
    {
        match self {
            ComponentView::Container(v) => 1 + deepest(v.components),
            ComponentView::Form(v) => 1 + deepest(v.elements),
            ComponentView::Row(v) => 1 + deepest(v.columns),
            ComponentView::Paragraph(v) => 1 + deepest(v.stuff),
            ComponentView::Megamenu(v) => 1 + deepest(v.groups),
            ComponentView::Submenu(v) => 1 + deepest(v.items),
            ComponentView::MenuItem(v) => 1 + deepest(v.content),
            ComponentView::FlexItem(v) => 1 + deepest(v.stuff),
            _ => 0,
        }
    }
}

/// Components of different kinds have different handles.
pub proof fn lemma_handle_tells_the_kind(a: ComponentView, b: ComponentView)
    requires
        a.handle() == b.handle(),
    ensures
        a is Html <==> b is Html,
        a is Translate <==> b is Translate,
        a is Container <==> b is Container,
        a is Heading <==> b is Heading,
        a is Form <==> b is Form,
        a is Row <==> b is Row,
        a is Paragraph <==> b is Paragraph,
        a is Megamenu <==> b is Megamenu,
        a is Submenu <==> b is Submenu,
        a is MenuItem <==> b is MenuItem,
        a is FlexItem <==> b is FlexItem,
        a is Button <==> b is Button,
        a is Hidden <==> b is Hidden,
        a is Input <==> b is Input,
        a is Error404 <==> b is Error404,
{
}

/// A change leaves alone what a component holds.
pub proof fn lemma_changed_nesting(c: ComponentView, change: ComponentChangeView)
    ensures
        c.changed(change).nesting() == c.nesting(),
        c.changed(change).children() == c.children(),
        c.changed(change).handle() == c.handle(),
{
}

pub proof fn lemma_deepest(items: Seq<ComponentView>, i: int)
    requires
        0 <= i < items.len(),
    ensures
        items[i].nesting() <= deepest(items),
    decreases items.len(),
{
    if i < items.len() - 1 {
        lemma_deepest(items.drop_last(), i);
    }
}

pub proof fn lemma_deepest_bound(items: Seq<ComponentView>, bound: nat)
    requires
        forall|i: int| 0 <= i < items.len() ==> (#[trigger] items[i]).nesting() <= bound,
    ensures
        deepest(items) <= bound,
    decreases items.len(),
{
    if items.len() > 0 {
        assert forall|i: int| 0 <= i < items.drop_last().len() implies (
        #[trigger] items.drop_last()[i]).nesting() <= bound by {
            assert(items.drop_last()[i] == items[i]);
        }
        lemma_deepest_bound(items.drop_last(), bound);
        assert(items.last() == items[items.len() - 1]);
    }
}

/// What rendering one component gives: its markup, and the component and the
/// context as rendering left them.
pub struct Rendered {
    pub markup: Seq<char>,
    pub component: ComponentView,
    pub context: ContextView,
}

/// What rendering a bundle gives.
pub struct RenderedAll {
    pub markup: Seq<char>,
    pub components: Seq<ComponentView>,
    pub context: ContextView,
}

/// The component after the actions registered for "before render" and then
/// the theme had their turn at it.
pub open spec fn prepared<T: ThemeTrait + ?Sized>(
    theme: &T,
    actions: &ActionsRegistry,
    c: ComponentView,
    cx: ContextView,
) -> (
    ComponentView,
    ContextView,
) {
    theme.prepared(actions.component_altered(ACTION_BEFORE_RENDER_COMPONENT, c), cx)
}

/// The result of the whole pipeline for one component. `fuel` bounds the
/// nesting that is followed.
pub open spec fn rendered<T: ThemeTrait + ?Sized>(
    theme: &T,
    actions: &ActionsRegistry,
    c: ComponentView,
    cx: ContextView,
    fuel: nat,
) -> Rendered
    decreases fuel, 3nat, 0nat,
{
    let ready = prepared(theme, actions, c, cx);
    if !ready.0.renderable(ready.1) {
        Rendered { markup: Seq::empty(), component: ready.0, context: ready.1 }
    } else {
        let shown = match theme.overridden(ready.0, ready.1) {
            Some(over) => Rendered { markup: over.0, component: ready.0, context: over.1 },
            None => default_rendered(theme, actions, ready.0, ready.1, fuel),
        };
        Rendered {
            component: actions.component_altered(ACTION_AFTER_RENDER_COMPONENT, shown.component),
            ..shown
        }
    }
}

/// The result of the component's own renderer.
pub open spec fn default_rendered<T: ThemeTrait + ?Sized>(
    theme: &T,
    actions: &ActionsRegistry,
    c: ComponentView,
    cx: ContextView,
    fuel: nat,
)
    -> Rendered
    decreases fuel, 2nat, 0nat,
{
    match c.children() {
        Some(kids) => {
            if fuel == 0 {
                Rendered { markup: Seq::empty(), component: c, context: cx }
            } else {
                let inner = rendered_all(theme, actions, kids, cx, (fuel - 1) as nat);
                Rendered {
                    markup: c.markup(inner.markup, cx.langid),
                    component: c.with_children(inner.components),
                    context: inner.context,
                }
            }
        },
        None => Rendered { markup: c.markup(Seq::empty(), cx.langid), component: c, context: cx },
    }
}

/// The result of rendering the components of a bundle in the order of their weights.
pub open spec fn rendered_all<T: ThemeTrait + ?Sized>(
    theme: &T,
    actions: &ActionsRegistry,
    items: Seq<ComponentView>,
    cx: ContextView,
    fuel: nat,
)
    -> RenderedAll
    decreases fuel, 5nat, 0nat,
{
    rendered_in_turns(theme, actions, items, stable_order(weights_of(items)), 0, cx, fuel)
}

/// The result of rendering `items[order[k]]`, `items[order[k + 1]]` and so on.
pub open spec fn rendered_in_turns<T: ThemeTrait + ?Sized>(
    theme: &T,
    actions: &ActionsRegistry,
    items: Seq<ComponentView>,
    order: Seq<int>,
    k: int,
    cx: ContextView,
    fuel: nat,
) -> RenderedAll
    decreases fuel, 4nat, order.len() - k,
{
    if k < 0 || k >= order.len() || order[k] < 0 || order[k] >= items.len() {
        RenderedAll { markup: Seq::empty(), components: items, context: cx }
    } else {
        let one = rendered(theme, actions, items[order[k]], cx, fuel);
        let rest = rendered_in_turns(
            theme,
            actions,
            items.update(order[k], one.component),
            order,
            k + 1,
            one.context,
            fuel,
        );
        RenderedAll { markup: one.markup + rest.markup, ..rest }
    }
}

/// A component that is not renderable gives no markup, whatever it holds:
/// neither the theme's override nor the component's own renderer gets to
/// see it, so the component and the context stay as the preparation left them.
pub proof fn lemma_hidden_component_is_empty<T: ThemeTrait + ?Sized>(
    theme: &T,
    actions: &ActionsRegistry,
    c: ComponentView,
    cx: ContextView,
    fuel: nat,
)
    requires
        !prepared(theme, actions, c, cx).0.renderable(prepared(theme, actions, c, cx).1),
    ensures
        rendered(theme, actions, c, cx, fuel).markup == Seq::<char>::empty(),
        rendered(theme, actions, c, cx, fuel).component == prepared(theme, actions, c, cx).0,
        rendered(theme, actions, c, cx, fuel).context == prepared(theme, actions, c, cx).1,
{
}

/// Where the theme overrides a component, the markup is the theme's: the
/// component's own renderer contributes nothing, and the components it holds
/// are not touched.
pub proof fn lemma_override_replaces_default<T: ThemeTrait + ?Sized>(
    theme: &T,
    actions: &ActionsRegistry,
    c: ComponentView,
    cx: ContextView,
    fuel: nat,
)
    requires
        prepared(theme, actions, c, cx).0.renderable(prepared(theme, actions, c, cx).1),
        theme.overridden(
            prepared(theme, actions, c, cx).0,
            prepared(theme, actions, c, cx).1,
        ) is Some,
    ensures
        rendered(theme, actions, c, cx, fuel) == ({
            let ready = prepared(theme, actions, c, cx);
            let over = theme.overridden(ready.0, ready.1)->0;
            Rendered {
                markup: over.0,
                component: actions.component_altered(ACTION_AFTER_RENDER_COMPONENT, ready.0),
                context: over.1,
            }
        }),
{
}

impl View for AnyComponent {
    type V = ComponentView;

    closed spec fn view(&self) -> ComponentView
        decreases self,
    {
        match self {
            AnyComponent::Html(c) => ComponentView::Html(c.view()),
            AnyComponent::Translate(c) => ComponentView::Translate(c.view()),
            AnyComponent::Container(c) => ComponentView::Container(c.view()),
            AnyComponent::Heading(c) => ComponentView::Heading(c.view()),
            AnyComponent::Form(c) => ComponentView::Form(c.view()),
            AnyComponent::Row(c) => ComponentView::Row(c.view()),
            AnyComponent::Paragraph(c) => ComponentView::Paragraph(c.view()),
            AnyComponent::Megamenu(c) => ComponentView::Megamenu(c.view()),
            AnyComponent::Submenu(c) => ComponentView::Submenu(c.view()),
            AnyComponent::MenuItem(c) => ComponentView::MenuItem(c.view()),
            AnyComponent::FlexItem(c) => ComponentView::FlexItem(c.view()),
            AnyComponent::Button(c) => ComponentView::Button(c.view()),
            AnyComponent::Hidden(c) => ComponentView::Hidden(c.view()),
            AnyComponent::Input(c) => ComponentView::Input(c.view()),
            AnyComponent::Error404(_) => ComponentView::Error404,
        }
    }
}

/// A component of any kind is seen as what it is of its own kind.
pub proof fn lemma_view_of_kind(c: AnyComponent)
    ensures
        match c {
            AnyComponent::Html(x) => c@ == ComponentView::Html(x@),
            AnyComponent::Translate(x) => c@ == ComponentView::Translate(x@),
            AnyComponent::Container(x) => c@ == ComponentView::Container(x@),
            AnyComponent::Heading(x) => c@ == ComponentView::Heading(x@),
            AnyComponent::Form(x) => c@ == ComponentView::Form(x@),
            AnyComponent::Row(x) => c@ == ComponentView::Row(x@),
            AnyComponent::Paragraph(x) => c@ == ComponentView::Paragraph(x@),
            AnyComponent::Megamenu(x) => c@ == ComponentView::Megamenu(x@),
            AnyComponent::Submenu(x) => c@ == ComponentView::Submenu(x@),
            AnyComponent::MenuItem(x) => c@ == ComponentView::MenuItem(x@),
            AnyComponent::FlexItem(x) => c@ == ComponentView::FlexItem(x@),
            AnyComponent::Button(x) => c@ == ComponentView::Button(x@),
            AnyComponent::Hidden(x) => c@ == ComponentView::Hidden(x@),
            AnyComponent::Input(x) => c@ == ComponentView::Input(x@),
            AnyComponent::Error404(x) => c@ == ComponentView::Error404,
        },
{
}

/// An ordered collection of components within a parent.
pub struct PageContainer {
    pub(crate) items: Vec<AnyComponent>,
}

/// An ordered collection of components within a parent.
pub type ComponentsBundle = PageContainer;

impl View for PageContainer {
    type V = Seq<ComponentView>;

    closed spec fn view(&self) -> Seq<ComponentView>
        decreases self,
    {
        Seq::new(
            self.items@.len(),
            |i: int|
                if 0 <= i < self.items@.len() {
                    self.items@[i].view()
                } else {
                    arbitrary()
                },
        )
    }
}

/// How `PageContainer::alter_bundle` puts a component in.
#[derive(Clone, Copy, Debug, PartialEq, Eq, Structural)]
pub enum BundleOp {
    /// Behind the components that are there.
    Add,
    /// In front of the components that are there.
    AddFirst,
    /// In the place of the components that are there.
    Reset,
}

/// The components of a bundle after `op` put `c` in.
pub open spec fn bundle_altered(items: Seq<ComponentView>, op: BundleOp, c: ComponentView) -> Seq<
    ComponentView,
> {
    match op {
        BundleOp::Add => items.push(c),
        BundleOp::AddFirst => seq![c] + items,
        BundleOp::Reset => seq![c],
    }
}

impl AnyComponent {
    pub fn handle(&self) -> (h: Handle)
        ensures
            h == self@.handle(),
    {
        match self {
            AnyComponent::Html(_) => COMPONENT_HTML,
            AnyComponent::Translate(_) => COMPONENT_L10N,
            AnyComponent::Container(_) => COMPONENT_CONTAINER,
            AnyComponent::Heading(_) => COMPONENT_HEADING,
            AnyComponent::Form(_) => COMPONENT_FORM,
            AnyComponent::Row(_) => COMPONENT_ROW,
            AnyComponent::Paragraph(_) => COMPONENT_PARAGRAPH,
            AnyComponent::Megamenu(_) => COMPONENT_MEGAMENU,
            AnyComponent::Submenu(_) => COMPONENT_SUBMENU,
            AnyComponent::MenuItem(_) => COMPONENT_MENU_ITEM,
            AnyComponent::FlexItem(_) => COMPONENT_FLEX_ITEM,
            AnyComponent::Button(_) => COMPONENT_BUTTON,
            AnyComponent::Hidden(_) => COMPONENT_HIDDEN,
            AnyComponent::Input(_) => COMPONENT_INPUT,
            AnyComponent::Error404(_) => COMPONENT_ERROR404,
        }
    }

    pub fn weight(&self) -> (w: Weight)
        ensures
            w == self@.weight(),
    {
        match self {
            AnyComponent::Html(c) => c.weight(),
            AnyComponent::Translate(c) => c.weight(),
            AnyComponent::Container(c) => c.weight(),
            AnyComponent::Heading(c) => c.weight(),
            AnyComponent::Form(c) => c.weight(),
            AnyComponent::Row(c) => c.weight(),
            AnyComponent::Paragraph(c) => c.weight(),
            AnyComponent::Megamenu(c) => c.weight(),
            AnyComponent::Submenu(c) => c.weight(),
            AnyComponent::MenuItem(c) => c.weight(),
            AnyComponent::FlexItem(c) => c.weight(),
            AnyComponent::Button(c) => c.weight(),
            AnyComponent::Hidden(c) => c.weight(),
            AnyComponent::Input(c) => c.weight(),
            AnyComponent::Error404(c) => c.weight(),
        }
    }

    pub fn id(&self) -> (r: Option<String>)
        ensures
            opt_view(r) == self@.id(),
    {
        match self {
            AnyComponent::Container(c) => c.id().get(),
            AnyComponent::Heading(c) => c.id().get(),
            AnyComponent::Form(c) => c.id().get(),
            AnyComponent::Row(c) => c.id().get(),
            AnyComponent::Paragraph(c) => c.id().get(),
            AnyComponent::Megamenu(c) => c.id().get(),
            AnyComponent::Submenu(c) => c.id().get(),
            AnyComponent::FlexItem(c) => c.id().get(),
            _ => None,
        }
    }

    pub fn is_renderable(&self, cx: &Context) -> (b: bool)
        ensures
            b == self@.renderable(cx@),
    {
        match self {
            AnyComponent::Html(c) => c.is_renderable(cx),
            AnyComponent::Translate(c) => c.is_renderable(cx),
            AnyComponent::Container(c) => c.is_renderable(cx),
            AnyComponent::Heading(c) => c.is_renderable(cx),
            AnyComponent::Form(c) => c.is_renderable(cx),
            AnyComponent::Row(c) => c.is_renderable(cx),
            AnyComponent::Paragraph(c) => c.is_renderable(cx),
            AnyComponent::Megamenu(c) => c.is_renderable(cx),
            AnyComponent::Submenu(c) => c.is_renderable(cx),
            AnyComponent::MenuItem(c) => c.is_renderable(cx),
            AnyComponent::FlexItem(c) => c.is_renderable(cx),
            AnyComponent::Button(c) => c.is_renderable(cx),
            AnyComponent::Hidden(c) => c.is_renderable(cx),
            AnyComponent::Input(c) => c.is_renderable(cx),
            AnyComponent::Error404(c) => c.is_renderable(cx),
        }
    }

    /// Applies `change` to the component.
    pub fn apply(&mut self, change: &ComponentChange)
        ensures
            final(self)@ == old(self)@.changed(change@),
    {
        match self {
            AnyComponent::Container(c) => c.apply(change),
            AnyComponent::Heading(c) => c.apply(change),
            AnyComponent::Form(c) => c.apply(change),
            AnyComponent::Row(c) => c.apply(change),
            AnyComponent::Paragraph(c) => c.apply(change),
            AnyComponent::Megamenu(c) => c.apply(change),
            AnyComponent::Submenu(c) => c.apply(change),
            AnyComponent::MenuItem(c) => c.apply(change),
            AnyComponent::FlexItem(c) => c.apply(change),
            AnyComponent::Button(c) => c.apply(change),
            AnyComponent::Hidden(c) => c.apply(change),
            AnyComponent::Input(c) => c.apply(change),
            _ => {},
        }
    }

    /// Runs the renderer of the component's own kind.
    pub(crate) fn render_fueled<T: ThemeTrait + ?Sized>(
        &mut self,
        cx: &mut Context,
        theme: &T,
        actions: &ActionsRegistry,
        Ghost(fuel): Ghost<nat>,
    ) -> (m: Markup)
        requires
            old(self)@.nesting() <= fuel,
        ensures
            (Rendered { markup: m@, component: final(self)@, context: final(cx)@ })
                == default_rendered(theme, actions, old(self)@, old(cx)@, fuel),
            final(self)@.nesting() <= old(self)@.nesting(),
        decreases fuel, 2nat, 0nat,
    {
        match self {
            AnyComponent::Html(c) => c.prepare(),
            AnyComponent::Translate(c) => c.escaped(cx.langid()),
            AnyComponent::Container(c) => c.render_fueled(cx, theme, actions, Ghost(fuel)),
            AnyComponent::Heading(c) => c.prepare(cx),
            AnyComponent::Form(c) => c.render_fueled(cx, theme, actions, Ghost(fuel)),
            AnyComponent::Row(c) => c.render_fueled(cx, theme, actions, Ghost(fuel)),
            AnyComponent::Paragraph(c) => c.render_fueled(cx, theme, actions, Ghost(fuel)),
            AnyComponent::Megamenu(c) => c.render_fueled(cx, theme, actions, Ghost(fuel)),
            AnyComponent::Submenu(c) => c.render_fueled(cx, theme, actions, Ghost(fuel)),
            AnyComponent::MenuItem(c) => c.render_fueled(cx, theme, actions, Ghost(fuel)),
            AnyComponent::FlexItem(c) => c.render_fueled(cx, theme, actions, Ghost(fuel)),
            AnyComponent::Button(c) => c.prepare(cx),
            AnyComponent::Hidden(c) => c.prepare(cx),
            AnyComponent::Input(c) => c.prepare(cx),
            AnyComponent::Error404(c) => c.prepare(),
        }
    }

    /// Runs the renderer of the component's own kind.
    pub fn default_render<T: ThemeTrait + ?Sized>(
        &mut self,
        cx: &mut Context,
        theme: &T,
        actions: &ActionsRegistry,
    ) -> (m: Markup)
        ensures
            (Rendered { markup: m@, component: final(self)@, context: final(cx)@ })
                == default_rendered(theme, actions, old(self)@, old(cx)@, old(self)@.nesting()),
            final(self)@.nesting() <= old(self)@.nesting(),
    {
        let ghost fuel = self@.nesting();
        self.render_fueled(cx, theme, actions, Ghost(fuel))
    }
}

impl PageContainer {
    pub fn new() -> (r: Self)
        ensures
            r@ == Seq::<ComponentView>::empty(),
    {
        let r = PageContainer { items: Vec::new() };
        assert(r@ == Seq::<ComponentView>::empty());
        r
    }

    pub fn new_with(component: AnyComponent) -> (r: Self)
        ensures
            r@ == seq![component@],
    {
        let mut r = PageContainer::new();
        r.add(component);
        r
    }

    /// Puts `component` behind the components that are there.
    pub fn add(&mut self, component: AnyComponent)
        ensures
            final(self)@ == old(self)@.push(component@),
    {
        self.items.push(component);
        assert(self@ == old(self)@.push(component@));
    }

    pub fn alter_bundle(&mut self, op: BundleOp, component: AnyComponent) -> (r: &mut Self)
        ensures
            r@ == bundle_altered(old(self)@, op, component@),
            *final(self) == *final(r),
    {
        match op {
            BundleOp::Add => {
                self.items.push(component);
            },
            BundleOp::AddFirst => {
                self.items.insert(0, component);
            },
            BundleOp::Reset => {
                self.items = Vec::new();
                self.items.push(component);
            },
        }
        assert(self@ == bundle_altered(old(self)@, op, component@));
        self
    }

    pub fn len(&self) -> (n: usize)
        ensures
            n == self@.len(),
    {
        self.items.len()
    }

    pub fn is_empty(&self) -> (b: bool)
        ensures
            b == (self@.len() == 0),
    {
        self.items.len() == 0
    }

    /// The weights of the components, in the order in which they were put in.
    pub fn weights(&self) -> (w: Vec<Weight>)
        ensures
            w@ == weights_of(self@),
    {
        let mut w: Vec<Weight> = Vec::new();
        let mut i: usize = 0;
        while i < self.items.len()
            invariant
                i <= self.items@.len(),
                w@ == weights_of(self@).take(i as int),
            decreases self.items@.len() - i,
        {
            w.push(self.items[i].weight());
            i = i + 1;
        }
        assert(weights_of(self@).take(self.items@.len() as int) == weights_of(self@));
        w
    }

    pub(crate) fn render_fueled<T: ThemeTrait + ?Sized>(
        &mut self,
        cx: &mut Context,
        theme: &T,
        actions: &ActionsRegistry,
        Ghost(fuel): Ghost<nat>,
    ) -> (m: Markup)
        requires
            forall|i: int|
                0 <= i < old(self)@.len() ==> (#[trigger] old(self)@[i]).nesting() <= fuel,
        ensures
            (RenderedAll { markup: m@, components: final(self)@, context: final(cx)@ })
                == rendered_all(theme, actions, old(self)@, old(cx)@, fuel),
            final(self)@.len() == old(self)@.len(),
            forall|i: int|
                0 <= i < old(self)@.len() ==> (#[trigger] final(self)@[i]).nesting() <= old(
                    self,
                )@[i].nesting(),
        decreases fuel, 5nat, 0nat,
    {
        let weights = self.weights();
        let order = order_by_weight(&weights);
        let ghost o = indices(order@);
        let ghost start = self@;
        let ghost start_cx = cx@;
        let mut m = Markup::new();
        let mut k: usize = 0;
        while k < order.len()
            invariant
                k <= order@.len(),
                o == indices(order@),
                order@.len() == self.items@.len(),
                self@.len() == start.len(),
                forall|j: int| 0 <= j < order@.len() ==> (#[trigger] order@[j]) < self.items@.len(),
                forall|i: int|
                    0 <= i < start.len() ==> (#[trigger] self@[i]).nesting() <= start[i].nesting(),
                forall|i: int| 0 <= i < start.len() ==> (#[trigger] start[i]).nesting() <= fuel,
                ({
                    let rest = rendered_in_turns(theme, actions, self@, o, k as int, cx@, fuel);
                    (RenderedAll { markup: m@ + rest.markup, ..rest }) == rendered_in_turns(
                        theme,
        actions,
                        start,
                        o,
                        0,
                        start_cx,
                        fuel,
                    )
                }),
            decreases order@.len() - k,
        {
            let idx: usize = order[k];
            let ghost before = self@;
            let ghost before_cx = cx@;
            let ghost before_m = m@;
            proof {
                assert(o[k as int] == idx as int);
                assert(before[idx as int].nesting() <= start[idx as int].nesting());
            }
            let piece = render_component_fueled(
                &mut self.items[idx],
                cx,
                theme,
                actions,
                Ghost(fuel),
            );
            proof {
                let one = rendered(theme, actions, before[idx as int], before_cx, fuel);
                assert(self@ == before.update(idx as int, one.component));
                let rest = rendered_in_turns(theme, actions, self@, o, k + 1, cx@, fuel);
                assert((before_m + one.markup) + rest.markup == before_m + (one.markup
                    + rest.markup));
            }
            m.push(&piece);
            k = k + 1;
        }
        assert(m@ + Seq::<char>::empty() == m@);
        m
    }

    /// Renders the components in the order of their weights; components of
    /// equal weight keep the order in which they were put in.
    pub fn render<T: ThemeTrait + ?Sized>(
        &mut self,
        cx: &mut Context,
        theme: &T,
        actions: &ActionsRegistry,
    ) -> (m: Markup)
        ensures
            (RenderedAll { markup: m@, components: final(self)@, context: final(cx)@ })
                == rendered_all(theme, actions, old(self)@, old(cx)@, deepest(old(self)@)),
            final(self)@.len() == old(self)@.len(),
    {
        let ghost fuel = deepest(self@);
        proof {
            assert forall|i: int| 0 <= i < self@.len() implies (#[trigger] self@[i]).nesting()
                <= fuel by {
                lemma_deepest(self@, i);
            }
        }
        self.render_fueled(cx, theme, actions, Ghost(fuel))
    }
}

pub(crate) fn render_component_fueled<T: ThemeTrait + ?Sized>(
    component: &mut AnyComponent,
    cx: &mut Context,
    theme: &T,
        actions: &ActionsRegistry,
    Ghost(fuel): Ghost<nat>,
) -> (m: Markup)
    requires
        old(component)@.nesting() <= fuel,
    ensures
        (Rendered { markup: m@, component: final(component)@, context: final(cx)@ }) == rendered(
            theme,
        actions,
            old(component)@,
            old(cx)@,
            fuel,
        ),
        final(component)@.nesting() <= old(component)@.nesting(),
    decreases fuel, 3nat, 0nat,
{
    actions.run_component_actions(ACTION_BEFORE_RENDER_COMPONENT, component);
    theme.before_render_component(component, cx);
    if !component.is_renderable(cx) {
        return Markup::new();
    }
    let markup = match theme.render_component(component, cx) {
        Some(m) => m,
        None => component.render_fueled(cx, theme, actions, Ghost(fuel)),
    };
    actions.run_component_actions(ACTION_AFTER_RENDER_COMPONENT, component);
    markup
}

/// Renders one component: the actions registered for "before render" and the
/// theme prepare it; if it is then renderable, the theme's override or else
/// the component's own renderer gives the markup, and the actions registered
/// for "after render" have their turn.
pub fn render_component<T: ThemeTrait + ?Sized>(
    component: &mut AnyComponent,
    cx: &mut Context,
    theme: &T,
    actions: &ActionsRegistry,
) -> (m: Markup)
    ensures
        (Rendered { markup: m@, component: final(component)@, context: final(cx)@ }) == rendered(
            theme,
        actions,
            old(component)@,
            old(cx)@,
            old(component)@.nesting(),
        ),
        final(component)@.nesting() <= old(component)@.nesting(),
{
    let ghost fuel = component@.nesting();
    render_component_fueled(component, cx, theme, actions, Ghost(fuel))
}

/// What every component offers, whatever its kind.
pub trait ComponentTrait: Sized {
    /// The component seen as one of any kind.
    spec fn as_view(&self) -> ComponentView;

    /// Whether a component of any kind is of this kind.
    spec fn is_kind(c: ComponentView) -> bool;

    fn new() -> Self;

    /// The component as one of this kind, if it is of this kind.
    fn from_any(component: &AnyComponent) -> (r: Option<&Self>)
        ensures
            r is Some <==> Self::is_kind(component@),
            r matches Some(c) ==> c.as_view() == component@,
    ;

    /// The component as one of this kind, to be changed, if it is of this kind.
    fn from_any_mut(component: &mut AnyComponent) -> (r: Option<&mut Self>)
        ensures
            r is Some <==> Self::is_kind(old(component)@),
            match r {
                Some(c) => {
                    &&& c.as_view() == old(component)@
                    &&& final(component)@ == final(c).as_view()
                },
                None => final(component)@ == old(component)@,
            },
    ;

    fn handle(&self) -> (h: Handle)
        ensures
            h == self.as_view().handle(),
    ;

    fn weight(&self) -> (w: Weight)
        ensures
            w == self.as_view().weight(),
    ;

    fn is_renderable(&self, cx: &Context) -> (b: bool)
        ensures
            b == self.as_view().renderable(cx@),
    ;

    fn default_render<T: ThemeTrait + ?Sized>(
        &mut self,
        cx: &mut Context,
        theme: &T,
        actions: &ActionsRegistry,
    ) -> (m: Markup)
        ensures
            (Rendered { markup: m@, component: final(self).as_view(), context: final(cx)@ })
                == default_rendered(
                theme,
        actions,
                old(self).as_view(),
                old(cx)@,
                old(self).as_view().nesting(),
            ),
    ;
}

/// The component as one of the kind `C`. The component has to be of that kind.
pub fn component_ref<C: ComponentTrait>(component: &AnyComponent) -> (c: &C)
    requires
        C::is_kind(component@),
    ensures
        c.as_view() == component@,
{
    C::from_any(component).unwrap()
}

/// The component as one of the kind `C`, to be changed. The component has to
/// be of that kind.
pub fn component_mut<C: ComponentTrait>(component: &mut AnyComponent) -> (c: &mut C)
    requires
        C::is_kind(old(component)@),
    ensures
        c.as_view() == old(component)@,
        final(component)@ == final(c).as_view(),
{
    C::from_any_mut(component).unwrap()
}

} // verus!
