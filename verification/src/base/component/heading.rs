//! A heading, from `h1` to `h6`.

use crate::base::component::l10n::{L10n, L10nView};
use crate::component::{
    lemma_view_of_kind, AnyComponent, ComponentTrait, ComponentView, FnIsRenderable,
    IsRenderableView, Renderable, COMPONENT_HEADING,
};
use crate::context::Context;
use crate::handle::Handle;
use crate::html::classes::{Classes, ClassesOp, ClassesOpView, ClassesView};
use crate::html::markup::{opt_attr, Markup};
use crate::html::opt_id::{identifier, non_empty, OptionId};
use crate::order::Weight;
use crate::action::{ActionsRegistry, ComponentChange, ComponentChangeView};
use crate::theme::ThemeTrait;
use vstd::prelude::*;

verus! {

/// The level of a heading.
#[derive(Clone, Copy, Debug, PartialEq, Eq, Structural)]
pub enum HeadingType {
    H1,
    H2,
    H3,
    H4,
    H5,
    H6,
}

/// The size in which a heading is shown.
#[derive(Clone, Copy, Debug, PartialEq, Eq, Structural)]
pub enum HeadingDisplay {
    Normal,
    XxLarge,
    Large,
    Medium,
    Small,
    XxSmall,
    Subtitle,
}

/// A `Heading` as a mathematical value.
pub struct HeadingView {
    pub weight: Weight,
    pub renderable: IsRenderableView,
    pub id: Option<Seq<char>>,
    pub classes: ClassesView,
    pub heading_type: HeadingType,
    pub text: L10nView,
    pub display: HeadingDisplay,
    pub template: Seq<char>,
}

/// The name of the element for a heading type.
pub open spec fn heading_tag(t: HeadingType) -> Seq<char> {
    match t {
        HeadingType::H1 => "h1"@,
        HeadingType::H2 => "h2"@,
        HeadingType::H3 => "h3"@,
        HeadingType::H4 => "h4"@,
        HeadingType::H5 => "h5"@,
        HeadingType::H6 => "h6"@,
    }
}

/// The default class that goes with a display size.
pub open spec fn display_class(d: HeadingDisplay) -> Seq<char> {
    match d {
        HeadingDisplay::XxLarge => "display-2"@,
        HeadingDisplay::Large => "display-3"@,
        HeadingDisplay::Medium => "display-4"@,
        HeadingDisplay::Small => "display-5"@,
        HeadingDisplay::XxSmall => "display-6"@,
        HeadingDisplay::Normal => ""@,
        HeadingDisplay::Subtitle => ""@,
    }
}

impl HeadingView {
    pub open spec fn markup(self, langid: Seq<char>) -> Seq<char> {
        "<"@ + heading_tag(self.heading_type) + opt_attr("id"@, self.id) + opt_attr(
            "class"@,
            self.classes.value(),
        ) + ">"@ + self.text.markup(langid) + "</"@ + heading_tag(self.heading_type) + ">"@
    }

    /// The component after `change`.
    pub open spec fn changed(self, change: ComponentChangeView) -> HeadingView {
        match change {
            ComponentChangeView::Id(id) => HeadingView { id: non_empty(identifier(id)), ..self },
            ComponentChangeView::Classes(op, classes) => HeadingView {
                classes: self.classes.altered(op, classes),
                ..self
            },
            ComponentChangeView::Weight(w) => HeadingView { weight: w, ..self },
            ComponentChangeView::Renderable(r) => HeadingView { renderable: r, ..self },
        }
    }

    /// A heading as `Heading::new` makes it.
    pub open spec fn initial() -> HeadingView {
        HeadingView {
            weight: 0,
            renderable: IsRenderableView::Always,
            id: None,
            classes: ClassesView::empty(),
            heading_type: HeadingType::H1,
            text: L10nView::empty(),
            display: HeadingDisplay::Normal,
            template: "default"@,
        }
    }
}

/// A heading.
pub struct Heading {
    pub(crate) weight: Weight,
    pub(crate) renderable: Renderable,
    pub(crate) id: OptionId,
    pub(crate) classes: Classes,
    pub(crate) heading_type: HeadingType,
    pub(crate) text: L10n,
    pub(crate) display: HeadingDisplay,
    pub(crate) template: String,
}

impl View for Heading {
    type V = HeadingView;

    closed spec fn view(&self) -> HeadingView {
        HeadingView {
            weight: self.weight,
            renderable: self.renderable@,
            id: self.id@,
            classes: self.classes@,
            heading_type: self.heading_type,
            text: self.text@,
            display: self.display,
            template: self.template@,
        }
    }
}

impl Heading {
    fn of_type(t: HeadingType, text: L10n) -> (r: Self)
        ensures
            r@ == (HeadingView {
                heading_type: t,
                text: text@,
                ..HeadingView::initial()
            }),
    {
        let mut h = <Heading as ComponentTrait>::new();
        h.heading_type = t;
        h.text = text;
        h
    }

    pub fn h1(text: L10n) -> (r: Self)
        ensures
            r@ == (HeadingView {
                heading_type: HeadingType::H1,
                text: text@,
                ..HeadingView::initial()
            }),
    {
        Heading::of_type(HeadingType::H1, text)
    }

    pub fn h2(text: L10n) -> (r: Self)
        ensures
            r@ == (HeadingView {
                heading_type: HeadingType::H2,
                text: text@,
                ..HeadingView::initial()
            }),
    {
        Heading::of_type(HeadingType::H2, text)
    }

    pub fn h3(text: L10n) -> (r: Self)
        ensures
            r@ == (HeadingView {
                heading_type: HeadingType::H3,
                text: text@,
                ..HeadingView::initial()
            }),
    {
        Heading::of_type(HeadingType::H3, text)
    }

    pub fn h4(text: L10n) -> (r: Self)
        ensures
            r@ == (HeadingView {
                heading_type: HeadingType::H4,
                text: text@,
                ..HeadingView::initial()
            }),
    {
        Heading::of_type(HeadingType::H4, text)
    }

    pub fn h5(text: L10n) -> (r: Self)
        ensures
            r@ == (HeadingView {
                heading_type: HeadingType::H5,
                text: text@,
                ..HeadingView::initial()
            }),
    {
        Heading::of_type(HeadingType::H5, text)
    }

    pub fn h6(text: L10n) -> (r: Self)
        ensures
            r@ == (HeadingView {
                heading_type: HeadingType::H6,
                text: text@,
                ..HeadingView::initial()
            }),
    {
        Heading::of_type(HeadingType::H6, text)
    }

    pub fn alter_weight(&mut self, value: Weight) -> (r: &mut Self)
        ensures
            r@ == (HeadingView { weight: value, ..old(self)@ }),
            *final(self) == *final(r),
    {
        self.weight = value;
        self
    }

    pub fn with_weight(self, value: Weight) -> (r: Self)
        ensures
            r@ == (HeadingView { weight: value, ..self@ }),
    {
        let mut c = self;
        c.alter_weight(value);
        c
    }

    pub fn alter_renderable(&mut self, check: FnIsRenderable) -> (r: &mut Self)
        ensures
            r@ == (HeadingView { renderable: check@, ..old(self)@ }),
            *final(self) == *final(r),
    {
        self.renderable.check = check;
        self
    }

    pub fn with_renderable(self, check: FnIsRenderable) -> (r: Self)
        ensures
            r@ == (HeadingView { renderable: check@, ..self@ }),
    {
        let mut c = self;
        c.alter_renderable(check);
        c
    }

    pub fn alter_id(&mut self, id: &str) -> (r: &mut Self)
        ensures
            r@ == (HeadingView { id: non_empty(identifier(id@)), ..old(self)@ }),
            *final(self) == *final(r),
    {
        self.id.alter_value(id);
        self
    }

    pub fn with_id(self, id: &str) -> (r: Self)
        ensures
            r@ == (HeadingView { id: non_empty(identifier(id@)), ..self@ }),
    {
        let mut c = self;
        c.alter_id(id);
        c
    }

    pub fn alter_classes(&mut self, op: ClassesOp, classes: &str) -> (r: &mut Self)
        ensures
            r@ == (HeadingView {
                classes: old(self)@.classes.altered(op@, classes@),
                ..old(self)@
            }),
            *final(self) == *final(r),
    {
        self.classes.alter_value(op, classes);
        self
    }

    pub fn with_classes(self, op: ClassesOp, classes: &str) -> (r: Self)
        ensures
            r@ == (HeadingView { classes: self@.classes.altered(op@, classes@), ..self@ }),
    {
        let mut c = self;
        c.alter_classes(op, classes);
        c
    }

    pub fn alter_heading_type(&mut self, heading_type: HeadingType) -> (r: &mut Self)
        ensures
            r@ == (HeadingView { heading_type: heading_type, ..old(self)@ }),
            *final(self) == *final(r),
    {
        self.heading_type = heading_type;
        self
    }

    pub fn with_heading_type(self, heading_type: HeadingType) -> (r: Self)
        ensures
            r@ == (HeadingView { heading_type: heading_type, ..self@ }),
    {
        let mut c = self;
        c.alter_heading_type(heading_type);
        c
    }

    pub fn alter_text(&mut self, text: L10n) -> (r: &mut Self)
        ensures
            r@ == (HeadingView { text: text@, ..old(self)@ }),
            *final(self) == *final(r),
    {
        self.text = text;
        self
    }

    pub fn with_text(self, text: L10n) -> (r: Self)
        ensures
            r@ == (HeadingView { text: text@, ..self@ }),
    {
        let mut c = self;
        c.alter_text(text);
        c
    }

    /// Sets the display size, and the default class that goes with it.
    pub fn alter_display(&mut self, display: HeadingDisplay) -> (r: &mut Self)
        ensures
            r@ == (HeadingView {
                display: display,
                classes: old(self)@.classes.altered(
                    ClassesOpView::SetDefault,
                    display_class(display),
                ),
                ..old(self)@
            }),
            *final(self) == *final(r),
    {
        self.display = display;
        self.classes.alter_value(
            ClassesOp::SetDefault,
            match display {
                HeadingDisplay::XxLarge => "display-2",
                HeadingDisplay::Large => "display-3",
                HeadingDisplay::Medium => "display-4",
                HeadingDisplay::Small => "display-5",
                HeadingDisplay::XxSmall => "display-6",
                HeadingDisplay::Normal => "",
                HeadingDisplay::Subtitle => "",
            },
        );
        self
    }

    pub fn with_display(self, display: HeadingDisplay) -> (r: Self)
        ensures
            r@ == (HeadingView {
                display: display,
                classes: self@.classes.altered(ClassesOpView::SetDefault, display_class(display)),
                ..self@
            }),
    {
        let mut c = self;
        c.alter_display(display);
        c
    }

    pub fn alter_template(&mut self, template: &str) -> (r: &mut Self)
        ensures
            r@ == (HeadingView { template: template@, ..old(self)@ }),
            *final(self) == *final(r),
    {
        self.template = template.to_owned();
        self
    }

    pub fn with_template(self, template: &str) -> (r: Self)
        ensures
            r@ == (HeadingView { template: template@, ..self@ }),
    {
        let mut c = self;
        c.alter_template(template);
        c
    }

    pub fn id(&self) -> (r: &OptionId)
        ensures
            r@ == self@.id,
    {
        &self.id
    }

    pub fn classes(&self) -> (r: &Classes)
        ensures
            r@ == self@.classes,
    {
        &self.classes
    }

    pub fn heading_type(&self) -> (r: &HeadingType)
        ensures
            *r == self@.heading_type,
    {
        &self.heading_type
    }

    pub fn text(&self) -> (r: &L10n)
        ensures
            r@ == self@.text,
    {
        &self.text
    }

    pub fn display(&self) -> (r: &HeadingDisplay)
        ensures
            *r == self@.display,
    {
        &self.display
    }

    pub fn template(&self) -> (r: &str)
        ensures
            r@ == self@.template,
    {
        self.template.as_str()
    }

    /// Applies `change` to the component.
    pub fn apply(&mut self, change: &ComponentChange)
        ensures
            final(self)@ == old(self)@.changed(change@),
    {
        match change {
            ComponentChange::Id(id) => {
                self.alter_id(id.as_str());
            },
            ComponentChange::Classes(op, classes) => {
                self.alter_classes(op.duplicate(), classes.as_str());
            },
            ComponentChange::Weight(w) => {
                self.alter_weight(*w);
            },
            ComponentChange::Renderable(r) => {
                self.alter_renderable(r.duplicate());
            },
        }
    }

    fn tag(&self) -> (t: &'static str)
        ensures
            t@ == heading_tag(self@.heading_type),
    {
        match self.heading_type {
            HeadingType::H1 => "h1",
            HeadingType::H2 => "h2",
            HeadingType::H3 => "h3",
            HeadingType::H4 => "h4",
            HeadingType::H5 => "h5",
            HeadingType::H6 => "h6",
        }
    }

    /// The markup of the heading in the language of `cx`.
    pub fn prepare(&self, cx: &Context) -> (m: Markup)
        ensures
            m@ == self@.markup(cx@.langid),
    {
        let tag = self.tag();
        let id = self.id.get();
        let classes = self.classes.get();
        let text = self.text.escaped(cx.langid());
        let mut m = Markup::raw("<");
        m.push_raw(tag);
        m.push_opt_attr("id", &id);
        m.push_opt_attr("class", &classes);
        m.push_raw(">");
        m.push(&text);
        m.push_raw("</");
        m.push_raw(tag);
        m.push_raw(">");
        m
    }
}

impl ComponentTrait for Heading {
    open spec fn as_view(&self) -> ComponentView {
        ComponentView::Heading(self@)
    }

    open spec fn is_kind(c: ComponentView) -> bool {
        c is Heading
    }

    fn from_any(component: &AnyComponent) -> (r: Option<&Self>) {
        proof {
            lemma_view_of_kind(*component);
        }
        match component {
            AnyComponent::Heading(c) => Some(c),
            _ => None,
        }
    }

    fn from_any_mut(component: &mut AnyComponent) -> (r: Option<&mut Self>) {
        proof {
            lemma_view_of_kind(*component);
        }
        match component {
            AnyComponent::Heading(c) => {
                proof {
                    lemma_view_of_kind(AnyComponent::Heading(*final(c)));
                }
                Some(c)
            },
            _ => None,
        }
    }

    fn new() -> (r: Self)
        ensures
            r@ == HeadingView::initial(),
    {
        Heading {
            weight: 0,
            renderable: Renderable::new(),
            id: OptionId::new(),
            classes: Classes::new(),
            heading_type: HeadingType::H1,
            text: L10n::new(),
            display: HeadingDisplay::Normal,
            template: "default".to_owned(),
        }
    }

    fn handle(&self) -> (h: Handle) {
        COMPONENT_HEADING
    }

    fn weight(&self) -> (w: Weight) {
        self.weight
    }

    fn is_renderable(&self, cx: &Context) -> (b: bool) {
        self.renderable.holds(cx)
    }

    fn default_render<T: ThemeTrait + ?Sized>(
        &mut self,
        cx: &mut Context,
        theme: &T,
        actions: &ActionsRegistry,
    ) -> (m: Markup) {
        self.prepare(cx)
    }
}

} // verus!
