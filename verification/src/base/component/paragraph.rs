//! A paragraph and what it holds.

use crate::action::{ActionsRegistry, ComponentChange, ComponentChangeView};
use crate::base::component::l10n::L10n;
use crate::component::{
    bundle_altered, deepest, default_rendered, lemma_deepest, lemma_deepest_bound,
    lemma_view_of_kind, AnyComponent, BundleOp, ComponentTrait, ComponentView, ComponentsBundle,
    FnIsRenderable, IsRenderableView, Renderable, Rendered, COMPONENT_PARAGRAPH,
};
use crate::context::Context;
use crate::handle::Handle;
use crate::html::classes::{Classes, ClassesOp, ClassesOpView, ClassesView};
use crate::html::markup::{opt_attr, Markup};
use crate::html::opt_id::{identifier, non_empty, OptionId};
use crate::order::Weight;
use crate::theme::ThemeTrait;
use vstd::prelude::*;

verus! {

/// The size of the text of a paragraph.
#[derive(Clone, Copy, Debug, PartialEq, Eq, Structural)]
pub enum FontSize {
    ExtraLarge,
    XxLarge,
    XLarge,
    Large,
    Medium,
    Normal,
    Small,
    XSmall,
    XxSmall,
    ExtraSmall,
}

/// The class that stands for a font size; none for the normal size.
pub open spec fn font_class(size: FontSize) -> Seq<char> {
    match size {
        FontSize::ExtraLarge => "fs__x3l"@,
        FontSize::XxLarge => "fs__x2l"@,
        FontSize::XLarge => "fs__xl"@,
        FontSize::Large => "fs__l"@,
        FontSize::Medium => "fs__m"@,
        FontSize::Normal => ""@,
        FontSize::Small => "fs__s"@,
        FontSize::XSmall => "fs__xs"@,
        FontSize::XxSmall => "fs__x2s"@,
        FontSize::ExtraSmall => "fs__x3s"@,
    }
}

impl FontSize {
    /// The class that stands for the font size.
    pub fn class(&self) -> (c: &'static str)
        ensures
            c@ == font_class(*self),
    {
        match self {
            FontSize::ExtraLarge => "fs__x3l",
            FontSize::XxLarge => "fs__x2l",
            FontSize::XLarge => "fs__xl",
            FontSize::Large => "fs__l",
            FontSize::Medium => "fs__m",
            FontSize::Normal => "",
            FontSize::Small => "fs__s",
            FontSize::XSmall => "fs__xs",
            FontSize::XxSmall => "fs__x2s",
            FontSize::ExtraSmall => "fs__x3s",
        }
    }
}

/// A `Paragraph` as a mathematical value.
pub struct ParagraphView {
    pub weight: Weight,
    pub renderable: IsRenderableView,
    pub id: Option<Seq<char>>,
    pub classes: ClassesView,
    pub font_size: FontSize,
    pub stuff: Seq<ComponentView>,
}

impl ParagraphView {
    /// The markup of the paragraph around the markup `inner` of what it holds.
    pub open spec fn markup(self, inner: Seq<char>) -> Seq<char> {
        "<p"@ + opt_attr("id"@, self.id) + opt_attr("class"@, self.classes.value()) + ">"@ + inner
            + "</p>"@
    }

    /// The component as `Paragraph::new` makes it.
    pub open spec fn initial() -> ParagraphView {
        ParagraphView {
            weight: 0,
            renderable: IsRenderableView::Always,
            id: None,
            classes: ClassesView::empty(),
            font_size: FontSize::Normal,
            stuff: Seq::empty(),
        }
    }

    /// The component after `change`; a change it has no use for leaves it as it is.
    pub open spec fn changed(self, change: ComponentChangeView) -> ParagraphView {
        match change {
            ComponentChangeView::Id(id) => ParagraphView { id: non_empty(identifier(id)), ..self },
            ComponentChangeView::Classes(op, classes) => ParagraphView {
                classes: self.classes.altered(op, classes),
                ..self
            },
            ComponentChangeView::Weight(w) => ParagraphView { weight: w, ..self },
            ComponentChangeView::Renderable(r) => ParagraphView { renderable: r, ..self },
        }
    }
}

/// A paragraph.
pub struct Paragraph {
    pub(crate) weight: Weight,
    pub(crate) renderable: Renderable,
    pub(crate) id: OptionId,
    pub(crate) classes: Classes,
    pub(crate) font_size: FontSize,
    pub(crate) stuff: ComponentsBundle,
}

impl View for Paragraph {
    type V = ParagraphView;

    closed spec fn view(&self) -> ParagraphView
        decreases self,
    {
        ParagraphView {
            weight: self.weight,
            renderable: self.renderable@,
            id: self.id@,
            classes: self.classes@,
            font_size: self.font_size,
            stuff: self.stuff.view(),
        }
    }
}

impl Paragraph {
    /// A paragraph that holds `component`.
    pub fn with(component: AnyComponent) -> (r: Self)
        ensures
            r@ == (ParagraphView { stuff: seq![component@], ..ParagraphView::initial() }),
    {
        let p = <Paragraph as ComponentTrait>::new();
        let r = p.add_component(component);
        assert(r@.stuff == seq![component@]);
        r
    }

    /// A paragraph that holds the text `l10n`.
    pub fn translated(l10n: L10n) -> (r: Self)
        ensures
            r@ == (ParagraphView {
                stuff: seq![ComponentView::Translate(l10n@)],
                ..ParagraphView::initial()
            }),
    {
        let p = <Paragraph as ComponentTrait>::new();
        let r = p.add_translated(l10n);
        assert(r@.stuff == seq![ComponentView::Translate(l10n@)]);
        r
    }

    pub fn alter_weight(&mut self, value: Weight) -> (r: &mut Self)
        ensures
            r@ == (ParagraphView { weight: value, ..old(self)@ }),
            *final(self) == *final(r),
    {
        self.weight = value;
        self
    }

    pub fn with_weight(self, value: Weight) -> (r: Self)
        ensures
            r@ == (ParagraphView { weight: value, ..self@ }),
    {
        let mut c = self;
        c.alter_weight(value);
        c
    }

    pub fn alter_renderable(&mut self, check: FnIsRenderable) -> (r: &mut Self)
        ensures
            r@ == (ParagraphView { renderable: check@, ..old(self)@ }),
            *final(self) == *final(r),
    {
        self.renderable.check = check;
        self
    }

    pub fn with_renderable(self, check: FnIsRenderable) -> (r: Self)
        ensures
            r@ == (ParagraphView { renderable: check@, ..self@ }),
    {
        let mut c = self;
        c.alter_renderable(check);
        c
    }

    pub fn alter_id(&mut self, id: &str) -> (r: &mut Self)
        ensures
            r@ == (ParagraphView { id: non_empty(identifier(id@)), ..old(self)@ }),
            *final(self) == *final(r),
    {
        self.id.alter_value(id);
        self
    }

    pub fn with_id(self, id: &str) -> (r: Self)
        ensures
            r@ == (ParagraphView { id: non_empty(identifier(id@)), ..self@ }),
    {
        let mut c = self;
        c.alter_id(id);
        c
    }

    pub fn alter_classes(&mut self, op: ClassesOp, classes: &str) -> (r: &mut Self)
        ensures
            r@ == (ParagraphView {
                classes: old(self)@.classes.altered(op@, classes@),
                ..old(self)@
            }),
            *final(self) == *final(r),
    {
        self.classes.alter_value(op, classes);
        self
    }

    pub fn with_classes(self, op: ClassesOp, classes: &str) -> (r: Self)
        ensures
            r@ == (ParagraphView { classes: self@.classes.altered(op@, classes@), ..self@ }),
    {
        let mut c = self;
        c.alter_classes(op, classes);
        c
    }

    /// Sets the font size, and puts its class in the place of the class of the
    /// size that the paragraph had.
    pub fn alter_font_size(&mut self, font_size: FontSize) -> (r: &mut Self)
        ensures
            r@ == (ParagraphView {
                font_size: font_size,
                classes: old(self)@.classes.altered(
                    ClassesOpView::Replace(font_class(old(self)@.font_size)),
                    font_class(font_size),
                ),
                ..old(self)@
            }),
            *final(self) == *final(r),
    {
        self.classes.alter_value(
            ClassesOp::Replace(self.font_size.class().to_owned()),
            font_size.class(),
        );
        self.font_size = font_size;
        self
    }

    pub fn with_font_size(self, font_size: FontSize) -> (r: Self)
        ensures
            r@ == (ParagraphView {
                font_size: font_size,
                classes: self@.classes.altered(
                    ClassesOpView::Replace(font_class(self@.font_size)),
                    font_class(font_size),
                ),
                ..self@
            }),
    {
        let mut c = self;
        c.alter_font_size(font_size);
        c
    }

    /// Puts `component` behind what the paragraph holds.
    pub fn add_component(self, component: AnyComponent) -> (r: Self)
        ensures
            r@ == (ParagraphView { stuff: self@.stuff.push(component@), ..self@ }),
    {
        let mut c = self;
        c.stuff.add(component);
        c
    }

    /// Puts the text `l10n` behind what the paragraph holds.
    pub fn add_translated(self, l10n: L10n) -> (r: Self)
        ensures
            r@ == (ParagraphView {
                stuff: self@.stuff.push(ComponentView::Translate(l10n@)),
                ..self@
            }),
    {
        let mut c = self;
        let text = AnyComponent::Translate(l10n);
        proof {
            lemma_view_of_kind(text);
        }
        c.stuff.add(text);
        c
    }

    pub fn alter_components(&mut self, op: BundleOp, component: AnyComponent) -> (r: &mut Self)
        ensures
            r@ == (ParagraphView {
                stuff: bundle_altered(old(self)@.stuff, op, component@),
                ..old(self)@
            }),
            *final(self) == *final(r),
    {
        self.stuff.alter_bundle(op, component);
        self
    }

    pub fn with_components(self, op: BundleOp, component: AnyComponent) -> (r: Self)
        ensures
            r@ == (ParagraphView { stuff: bundle_altered(self@.stuff, op, component@), ..self@ }),
    {
        let mut c = self;
        c.alter_components(op, component);
        c
    }

    pub fn id(&self) -> (r: &OptionId)
        ensures
            r@ == self@.id,
    {
        &self.id
    }

    pub fn classes(&self) -> (r: &Classes)
        ensures
            r@ == self@.classes,
    {
        &self.classes
    }

    pub fn font_size(&self) -> (r: &FontSize)
        ensures
            *r == self@.font_size,
    {
        &self.font_size
    }

    pub fn components(&self) -> (r: &ComponentsBundle)
        ensures
            r@ == self@.stuff,
    {
        &self.stuff
    }

    /// Applies `change` to the component.
    pub fn apply(&mut self, change: &ComponentChange)
        ensures
            final(self)@ == old(self)@.changed(change@),
    {
        match change {
            ComponentChange::Id(id) => {
                self.alter_id(id.as_str());
            },
            ComponentChange::Classes(op, classes) => {
                self.alter_classes(op.duplicate(), classes.as_str());
            },
            ComponentChange::Weight(w) => {
                self.alter_weight(*w);
            },
            ComponentChange::Renderable(r) => {
                self.alter_renderable(r.duplicate());
            },
        }
    }

    /// Renders what the component holds and writes the component around it.
    pub(crate) fn render_fueled<T: ThemeTrait + ?Sized>(
        &mut self,
        cx: &mut Context,
        theme: &T,
        actions: &ActionsRegistry,
        Ghost(fuel): Ghost<nat>,
    ) -> (m: Markup)
        requires
            ComponentView::Paragraph(old(self)@).nesting() <= fuel,
        ensures
            (Rendered {
                markup: m@,
                component: ComponentView::Paragraph(final(self)@),
                context: final(cx)@,
            }) == default_rendered(
                theme,
                actions,
                ComponentView::Paragraph(old(self)@),
                old(cx)@,
                fuel,
            ),
            ComponentView::Paragraph(final(self)@).nesting() <= ComponentView::Paragraph(
                old(self)@,
            ).nesting(),
        decreases fuel, 1nat, 0nat,
    {
        let ghost before = self@;
        proof {
            assert forall|i: int| 0 <= i < before.stuff.len() implies (
            #[trigger] before.stuff[i]).nesting() <= fuel - 1 by {
                lemma_deepest(before.stuff, i);
            }
        }
        let id = self.id.get();
        let classes = self.classes.get();
        let inner = self.stuff.render_fueled(cx, theme, actions, Ghost((fuel - 1) as nat));
        proof {
            assert(self@ == (ParagraphView { stuff: self@.stuff, ..before }));
            assert forall|i: int| 0 <= i < self@.stuff.len() implies (
            #[trigger] self@.stuff[i]).nesting() <= deepest(before.stuff) by {
                lemma_deepest(before.stuff, i);
            }
            lemma_deepest_bound(self@.stuff, deepest(before.stuff));
        }
        let mut m = Markup::raw("<p");
        m.push_opt_attr("id", &id);
        m.push_opt_attr("class", &classes);
        m.push_raw(">");
        m.push(&inner);
        m.push_raw("</p>");
        assert(m@ == before.markup(inner@));
        m
    }
}

impl ComponentTrait for Paragraph {
    open spec fn as_view(&self) -> ComponentView {
        ComponentView::Paragraph(self@)
    }

    open spec fn is_kind(c: ComponentView) -> bool {
        c is Paragraph
    }

    fn from_any(component: &AnyComponent) -> (r: Option<&Self>) {
        proof {
            lemma_view_of_kind(*component);
        }
        match component {
            AnyComponent::Paragraph(c) => Some(c),
            _ => None,
        }
    }

    fn from_any_mut(component: &mut AnyComponent) -> (r: Option<&mut Self>) {
        proof {
            lemma_view_of_kind(*component);
        }
        match component {
            AnyComponent::Paragraph(c) => {
                proof {
                    lemma_view_of_kind(AnyComponent::Paragraph(*final(c)));
                }
                Some(c)
            },
            _ => None,
        }
    }

    fn new() -> (r: Self)
        ensures
            r@ == ParagraphView::initial(),
    {
        Paragraph {
            weight: 0,
            renderable: Renderable::new(),
            id: OptionId::new(),
            classes: Classes::new(),
            font_size: FontSize::Normal,
            stuff: ComponentsBundle::new(),
        }
    }

    fn handle(&self) -> (h: Handle) {
        COMPONENT_PARAGRAPH
    }

    fn weight(&self) -> (w: Weight) {
        self.weight
    }

    fn is_renderable(&self, cx: &Context) -> (b: bool) {
        self.renderable.holds(cx)
    }

    fn default_render<T: ThemeTrait + ?Sized>(
        &mut self,
        cx: &mut Context,
        theme: &T,
        actions: &ActionsRegistry,
    ) -> (m: Markup) {
        let ghost fuel = ComponentView::Paragraph(self@).nesting();
        self.render_fueled(cx, theme, actions, Ghost(fuel))
    }
}

} // verus!
