//! An item of a flexible box.

use crate::base::component::flex::{
    align_class, grow_class, offset_class, shrink_class, size_class, ItemAlign, ItemGrow,
    ItemOffset, ItemShrink, ItemSize,
};
use crate::text::{push_signed_decimal, signed_decimal};
use crate::action::{ActionsRegistry, ComponentChange, ComponentChangeView};
use crate::component::{
    bundle_altered, deepest, default_rendered, lemma_deepest, lemma_deepest_bound,
    lemma_view_of_kind, AnyComponent, BundleOp, ComponentTrait, ComponentView, ComponentsBundle,
    FnIsRenderable, IsRenderableView, Renderable, Rendered, COMPONENT_FLEX_ITEM,
};
use crate::context::Context;
use crate::handle::Handle;
use crate::html::classes::{Classes, ClassesOp, ClassesOpView, ClassesView};
use crate::html::markup::{opt_attr, Markup};
use crate::html::opt_id::{identifier, non_empty, OptionId};
use crate::order::Weight;
use crate::theme::ThemeTrait;
use vstd::prelude::*;

verus! {

/// A `Item` as a mathematical value.
pub struct ItemView {
    pub weight: Weight,
    pub renderable: IsRenderableView,
    pub id: Option<Seq<char>>,
    pub item_classes: ClassesView,
    pub inner_classes: ClassesView,
    pub item_grow: ItemGrow,
    pub item_shrink: ItemShrink,
    pub item_size: ItemSize,
    pub item_offset: ItemOffset,
    pub item_align: ItemAlign,
    pub stuff: Seq<ComponentView>,
}

/// The style that puts an item in its place: none for the weight 0.
pub open spec fn order_style(weight: Weight) -> Option<Seq<char>> {
    if weight == 0 {
        None
    } else {
        Some("order: "@ + signed_decimal(weight as int) + ";"@)
    }
}

impl ItemView {
    /// The markup of the item around the markup `inner` of what it holds.
    pub open spec fn markup(self, inner: Seq<char>) -> Seq<char> {
        "<div"@ + opt_attr("id"@, self.id) + opt_attr("class"@, self.item_classes.value())
            + opt_attr("style"@, order_style(self.weight)) + "><div"@ + opt_attr(
            "class"@,
            self.inner_classes.value(),
        ) + ">"@ + inner + "</div></div>"@
    }

    /// The component as `Item::new` makes it.
    pub open spec fn initial() -> ItemView {
        ItemView {
            weight: 0,
            renderable: IsRenderableView::Always,
            id: None,
            item_classes: ClassesView::empty().altered(ClassesOpView::Add, "pt-flex__item"@),
            inner_classes: ClassesView::empty().altered(ClassesOpView::Add, "pt-flex__item-inner"@),
            item_grow: ItemGrow::Default,
            item_shrink: ItemShrink::Default,
            item_size: ItemSize::Default,
            item_offset: ItemOffset::Default,
            item_align: ItemAlign::Default,
            stuff: Seq::empty(),
        }
    }

    /// The component after `change`; a change it has no use for leaves it as it is.
    pub open spec fn changed(self, change: ComponentChangeView) -> ItemView {
        match change {
            ComponentChangeView::Id(id) => ItemView { id: non_empty(identifier(id)), ..self },
            ComponentChangeView::Classes(op, classes) => ItemView {
                item_classes: self.item_classes.altered(op, classes),
                ..self
            },
            ComponentChangeView::Weight(w) => ItemView { weight: w, ..self },
            ComponentChangeView::Renderable(r) => ItemView { renderable: r, ..self },
        }
    }
}

/// An item of a menu.
pub struct Item {
    pub(crate) weight: Weight,
    pub(crate) renderable: Renderable,
    pub(crate) id: OptionId,
    pub(crate) item_classes: Classes,
    pub(crate) inner_classes: Classes,
    pub(crate) item_grow: ItemGrow,
    pub(crate) item_shrink: ItemShrink,
    pub(crate) item_size: ItemSize,
    pub(crate) item_offset: ItemOffset,
    pub(crate) item_align: ItemAlign,
    pub(crate) stuff: ComponentsBundle,
}

impl View for Item {
    type V = ItemView;

    closed spec fn view(&self) -> ItemView
        decreases self,
    {
        ItemView {
            weight: self.weight,
            renderable: self.renderable@,
            id: self.id@,
            item_classes: self.item_classes@,
            inner_classes: self.inner_classes@,
            item_grow: self.item_grow,
            item_shrink: self.item_shrink,
            item_size: self.item_size,
            item_offset: self.item_offset,
            item_align: self.item_align,
            stuff: self.stuff.view(),
        }
    }
}

impl Item {
    pub fn alter_weight(&mut self, value: Weight) -> (r: &mut Self)
        ensures
            r@ == (ItemView { weight: value, ..old(self)@ }),
            *final(self) == *final(r),
    {
        self.weight = value;
        self
    }

    pub fn with_weight(self, value: Weight) -> (r: Self)
        ensures
            r@ == (ItemView { weight: value, ..self@ }),
    {
        let mut c = self;
        c.alter_weight(value);
        c
    }

    pub fn alter_renderable(&mut self, check: FnIsRenderable) -> (r: &mut Self)
        ensures
            r@ == (ItemView { renderable: check@, ..old(self)@ }),
            *final(self) == *final(r),
    {
        self.renderable.check = check;
        self
    }

    pub fn with_renderable(self, check: FnIsRenderable) -> (r: Self)
        ensures
            r@ == (ItemView { renderable: check@, ..self@ }),
    {
        let mut c = self;
        c.alter_renderable(check);
        c
    }

    pub fn alter_id(&mut self, id: &str) -> (r: &mut Self)
        ensures
            r@ == (ItemView { id: non_empty(identifier(id@)), ..old(self)@ }),
            *final(self) == *final(r),
    {
        self.id.alter_value(id);
        self
    }

    pub fn with_id(self, id: &str) -> (r: Self)
        ensures
            r@ == (ItemView { id: non_empty(identifier(id@)), ..self@ }),
    {
        let mut c = self;
        c.alter_id(id);
        c
    }

    pub fn alter_item_classes(&mut self, op: ClassesOp, classes: &str) -> (r: &mut Self)
        ensures
            r@ == (ItemView {
                item_classes: old(self)@.item_classes.altered(op@, classes@),
                ..old(self)@
            }),
            *final(self) == *final(r),
    {
        self.item_classes.alter_value(op, classes);
        self
    }

    pub fn with_item_classes(self, op: ClassesOp, classes: &str) -> (r: Self)
        ensures
            r@ == (ItemView { item_classes: self@.item_classes.altered(op@, classes@), ..self@ }),
    {
        let mut c = self;
        c.alter_item_classes(op, classes);
        c
    }

    pub fn alter_inner_classes(&mut self, op: ClassesOp, classes: &str) -> (r: &mut Self)
        ensures
            r@ == (ItemView {
                inner_classes: old(self)@.inner_classes.altered(op@, classes@),
                ..old(self)@
            }),
            *final(self) == *final(r),
    {
        self.inner_classes.alter_value(op, classes);
        self
    }

    pub fn with_inner_classes(self, op: ClassesOp, classes: &str) -> (r: Self)
        ensures
            r@ == (ItemView { inner_classes: self@.inner_classes.altered(op@, classes@), ..self@ }),
    {
        let mut c = self;
        c.alter_inner_classes(op, classes);
        c
    }

    /// Sets how the item grows, and puts the class for it in the place
    /// of the class that the item had for it.
    pub fn alter_grow(&mut self, grow: ItemGrow) -> (r: &mut Self)
        ensures
            r@ == (ItemView {
                item_grow: grow,
                item_classes: old(self)@.item_classes.altered(
                    ClassesOpView::Replace(grow_class(old(self)@.item_grow)),
                    grow_class(grow),
                ),
                ..old(self)@
            }),
            *final(self) == *final(r),
    {
        self.item_classes.alter_value(
            ClassesOp::Replace(self.item_grow.class().to_owned()),
            grow.class(),
        );
        self.item_grow = grow;
        self
    }

    pub fn with_grow(self, grow: ItemGrow) -> (r: Self)
        ensures
            r@ == (ItemView {
                item_grow: grow,
                item_classes: self@.item_classes.altered(
                    ClassesOpView::Replace(grow_class(self@.item_grow)),
                    grow_class(grow),
                ),
                ..self@
            }),
    {
        let mut c = self;
        c.alter_grow(grow);
        c
    }

    /// Sets how the item shrinks, and puts the class for it in the place
    /// of the class that the item had for it.
    pub fn alter_shrink(&mut self, shrink: ItemShrink) -> (r: &mut Self)
        ensures
            r@ == (ItemView {
                item_shrink: shrink,
                item_classes: old(self)@.item_classes.altered(
                    ClassesOpView::Replace(shrink_class(old(self)@.item_shrink)),
                    shrink_class(shrink),
                ),
                ..old(self)@
            }),
            *final(self) == *final(r),
    {
        self.item_classes.alter_value(
            ClassesOp::Replace(self.item_shrink.class().to_owned()),
            shrink.class(),
        );
        self.item_shrink = shrink;
        self
    }

    pub fn with_shrink(self, shrink: ItemShrink) -> (r: Self)
        ensures
            r@ == (ItemView {
                item_shrink: shrink,
                item_classes: self@.item_classes.altered(
                    ClassesOpView::Replace(shrink_class(self@.item_shrink)),
                    shrink_class(shrink),
                ),
                ..self@
            }),
    {
        let mut c = self;
        c.alter_shrink(shrink);
        c
    }

    /// Sets how the item is sized, and puts the class for it in the place
    /// of the class that the item had for it.
    pub fn alter_size(&mut self, size: ItemSize) -> (r: &mut Self)
        ensures
            r@ == (ItemView {
                item_size: size,
                item_classes: old(self)@.item_classes.altered(
                    ClassesOpView::Replace(size_class(old(self)@.item_size)),
                    size_class(size),
                ),
                ..old(self)@
            }),
            *final(self) == *final(r),
    {
        self.item_classes.alter_value(
            ClassesOp::Replace(self.item_size.class().to_owned()),
            size.class(),
        );
        self.item_size = size;
        self
    }

    pub fn with_size(self, size: ItemSize) -> (r: Self)
        ensures
            r@ == (ItemView {
                item_size: size,
                item_classes: self@.item_classes.altered(
                    ClassesOpView::Replace(size_class(self@.item_size)),
                    size_class(size),
                ),
                ..self@
            }),
    {
        let mut c = self;
        c.alter_size(size);
        c
    }

    /// Sets how the item is set off, and puts the class for it in the place
    /// of the class that the item had for it.
    pub fn alter_offset(&mut self, offset: ItemOffset) -> (r: &mut Self)
        ensures
            r@ == (ItemView {
                item_offset: offset,
                item_classes: old(self)@.item_classes.altered(
                    ClassesOpView::Replace(offset_class(old(self)@.item_offset)),
                    offset_class(offset),
                ),
                ..old(self)@
            }),
            *final(self) == *final(r),
    {
        self.item_classes.alter_value(
            ClassesOp::Replace(self.item_offset.class().to_owned()),
            offset.class(),
        );
        self.item_offset = offset;
        self
    }

    pub fn with_offset(self, offset: ItemOffset) -> (r: Self)
        ensures
            r@ == (ItemView {
                item_offset: offset,
                item_classes: self@.item_classes.altered(
                    ClassesOpView::Replace(offset_class(self@.item_offset)),
                    offset_class(offset),
                ),
                ..self@
            }),
    {
        let mut c = self;
        c.alter_offset(offset);
        c
    }

    /// Sets how the item is aligned, and puts the class for it in the place
    /// of the class that the item had for it.
    pub fn alter_align(&mut self, align: ItemAlign) -> (r: &mut Self)
        ensures
            r@ == (ItemView {
                item_align: align,
                item_classes: old(self)@.item_classes.altered(
                    ClassesOpView::Replace(align_class(old(self)@.item_align)),
                    align_class(align),
                ),
                ..old(self)@
            }),
            *final(self) == *final(r),
    {
        self.item_classes.alter_value(
            ClassesOp::Replace(self.item_align.class().to_owned()),
            align.class(),
        );
        self.item_align = align;
        self
    }

    pub fn with_align(self, align: ItemAlign) -> (r: Self)
        ensures
            r@ == (ItemView {
                item_align: align,
                item_classes: self@.item_classes.altered(
                    ClassesOpView::Replace(align_class(self@.item_align)),
                    align_class(align),
                ),
                ..self@
            }),
    {
        let mut c = self;
        c.alter_align(align);
        c
    }

    /// Puts `component` behind what the item holds.
    pub fn add_component(self, component: AnyComponent) -> (r: Self)
        ensures
            r@ == (ItemView { stuff: self@.stuff.push(component@), ..self@ }),
    {
        let mut c = self;
        c.stuff.add(component);
        c
    }

    pub fn alter_components(&mut self, op: BundleOp, component: AnyComponent) -> (r: &mut Self)
        ensures
            r@ == (ItemView {
                stuff: bundle_altered(old(self)@.stuff, op, component@),
                ..old(self)@
            }),
            *final(self) == *final(r),
    {
        self.stuff.alter_bundle(op, component);
        self
    }

    pub fn with_components(self, op: BundleOp, component: AnyComponent) -> (r: Self)
        ensures
            r@ == (ItemView { stuff: bundle_altered(self@.stuff, op, component@), ..self@ }),
    {
        let mut c = self;
        c.alter_components(op, component);
        c
    }

    pub fn id(&self) -> (r: &OptionId)
        ensures
            r@ == self@.id,
    {
        &self.id
    }

    pub fn item_classes(&self) -> (r: &Classes)
        ensures
            r@ == self@.item_classes,
    {
        &self.item_classes
    }

    pub fn inner_classes(&self) -> (r: &Classes)
        ensures
            r@ == self@.inner_classes,
    {
        &self.inner_classes
    }

    pub fn grow(&self) -> (r: &ItemGrow)
        ensures
            *r == self@.item_grow,
    {
        &self.item_grow
    }

    pub fn shrink(&self) -> (r: &ItemShrink)
        ensures
            *r == self@.item_shrink,
    {
        &self.item_shrink
    }

    pub fn size(&self) -> (r: &ItemSize)
        ensures
            *r == self@.item_size,
    {
        &self.item_size
    }

    pub fn offset(&self) -> (r: &ItemOffset)
        ensures
            *r == self@.item_offset,
    {
        &self.item_offset
    }

    pub fn align(&self) -> (r: &ItemAlign)
        ensures
            *r == self@.item_align,
    {
        &self.item_align
    }

    pub fn components(&self) -> (r: &ComponentsBundle)
        ensures
            r@ == self@.stuff,
    {
        &self.stuff
    }

    /// Applies `change` to the component.
    pub fn apply(&mut self, change: &ComponentChange)
        ensures
            final(self)@ == old(self)@.changed(change@),
    {
        match change {
            ComponentChange::Id(id) => {
                self.alter_id(id.as_str());
            },
            ComponentChange::Classes(op, classes) => {
                self.alter_item_classes(op.duplicate(), classes.as_str());
            },
            ComponentChange::Weight(w) => {
                self.alter_weight(*w);
            },
            ComponentChange::Renderable(r) => {
                self.alter_renderable(r.duplicate());
            },
        }
    }

    /// Renders what the component holds and writes the component around it.
    pub(crate) fn render_fueled<T: ThemeTrait + ?Sized>(
        &mut self,
        cx: &mut Context,
        theme: &T,
        actions: &ActionsRegistry,
        Ghost(fuel): Ghost<nat>,
    ) -> (m: Markup)
        requires
            ComponentView::FlexItem(old(self)@).nesting() <= fuel,
        ensures
            (Rendered {
                markup: m@,
                component: ComponentView::FlexItem(final(self)@),
                context: final(cx)@,
            }) == default_rendered(
                theme,
                actions,
                ComponentView::FlexItem(old(self)@),
                old(cx)@,
                fuel,
            ),
            ComponentView::FlexItem(final(self)@).nesting() <= ComponentView::FlexItem(
                old(self)@,
            ).nesting(),
        decreases fuel, 1nat, 0nat,
    {
        let ghost before = self@;
        proof {
            assert forall|i: int| 0 <= i < before.stuff.len() implies (
            #[trigger] before.stuff[i]).nesting() <= fuel - 1 by {
                lemma_deepest(before.stuff, i);
            }
        }
        let id = self.id.get();
        let item_classes = self.item_classes.get();
        let inner_classes = self.inner_classes.get();
        let order: Option<String> = if self.weight == 0 {
            None
        } else {
            let mut s = "order: ".to_owned();
            push_signed_decimal(&mut s, self.weight as i64);
            s.append(";");
            Some(s)
        };
        let inner = self.stuff.render_fueled(cx, theme, actions, Ghost((fuel - 1) as nat));
        proof {
            assert(self@ == (ItemView { stuff: self@.stuff, ..before }));
            assert forall|i: int| 0 <= i < self@.stuff.len() implies (
            #[trigger] self@.stuff[i]).nesting() <= deepest(before.stuff) by {
                lemma_deepest(before.stuff, i);
            }
            lemma_deepest_bound(self@.stuff, deepest(before.stuff));
        }
        let mut m = Markup::raw("<div");
        m.push_opt_attr("id", &id);
        m.push_opt_attr("class", &item_classes);
        m.push_opt_attr("style", &order);
        m.push_raw("><div");
        m.push_opt_attr("class", &inner_classes);
        m.push_raw(">");
        m.push(&inner);
        m.push_raw("</div></div>");
        assert(m@ == before.markup(inner@));
        m
    }
}

impl ComponentTrait for Item {
    open spec fn as_view(&self) -> ComponentView {
        ComponentView::FlexItem(self@)
    }

    open spec fn is_kind(c: ComponentView) -> bool {
        c is FlexItem
    }

    fn from_any(component: &AnyComponent) -> (r: Option<&Self>) {
        proof {
            lemma_view_of_kind(*component);
        }
        match component {
            AnyComponent::FlexItem(c) => Some(c),
            _ => None,
        }
    }

    fn from_any_mut(component: &mut AnyComponent) -> (r: Option<&mut Self>) {
        proof {
            lemma_view_of_kind(*component);
        }
        match component {
            AnyComponent::FlexItem(c) => {
                proof {
                    lemma_view_of_kind(AnyComponent::FlexItem(*final(c)));
                }
                Some(c)
            },
            _ => None,
        }
    }

    fn new() -> (r: Self)
        ensures
            r@ == ItemView::initial(),
    {
        Item {
            weight: 0,
            renderable: Renderable::new(),
            id: OptionId::new(),
            item_classes: Classes::new().with_value(ClassesOp::Add, "pt-flex__item"),
            inner_classes: Classes::new().with_value(ClassesOp::Add, "pt-flex__item-inner"),
            item_grow: ItemGrow::Default,
            item_shrink: ItemShrink::Default,
            item_size: ItemSize::Default,
            item_offset: ItemOffset::Default,
            item_align: ItemAlign::Default,
            stuff: ComponentsBundle::new(),
        }
    }

    fn handle(&self) -> (h: Handle) {
        COMPONENT_FLEX_ITEM
    }

    fn weight(&self) -> (w: Weight) {
        self.weight
    }

    fn is_renderable(&self, cx: &Context) -> (b: bool) {
        self.renderable.holds(cx)
    }

    fn default_render<T: ThemeTrait + ?Sized>(
        &mut self,
        cx: &mut Context,
        theme: &T,
        actions: &ActionsRegistry,
    ) -> (m: Markup) {
        let ghost fuel = ComponentView::FlexItem(self@).nesting();
        self.render_fueled(cx, theme, actions, Ghost(fuel))
    }
}

} // verus!
