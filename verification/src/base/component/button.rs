//! A button of a form.

use crate::base::component::hidden::{prefix_name, prefixed};
use crate::action::{ActionsRegistry, ComponentChange, ComponentChangeView};
use crate::base::component::l10n::{L10n, L10nView};
use crate::component::{
    lemma_view_of_kind, AnyComponent, ComponentTrait, ComponentView, FnIsRenderable,
    IsRenderableView, Renderable, COMPONENT_BUTTON,
};
use crate::context::Context;
use crate::handle::Handle;
use crate::html::classes::{Classes, ClassesOp, ClassesOpView, ClassesView};
use crate::html::markup::{attr, escaped, opt_attr, Markup};
use crate::html::opt_id::non_empty;
use crate::html::opt_string::OptionString;
use crate::order::Weight;
use crate::text::trimmed;
use crate::theme::ThemeTrait;
use vstd::prelude::*;

verus! {

/// What a button does.
#[derive(Clone, Copy, Debug, PartialEq, Eq, Structural)]
pub enum ButtonType {
    Button,
    Submit,
    Reset,
}

/// The value of the `type` attribute for a button type.
pub open spec fn button_type_value(t: ButtonType) -> Seq<char> {
    match t {
        ButtonType::Button => "button"@,
        ButtonType::Submit => "submit"@,
        ButtonType::Reset => "reset"@,
    }
}

/// A `Button` as a mathematical value.
pub struct ButtonView {
    pub weight: Weight,
    pub renderable: IsRenderableView,
    pub classes: ClassesView,
    pub button_type: ButtonType,
    pub name: Option<Seq<char>>,
    pub value: L10nView,
    pub autofocus: Option<Seq<char>>,
    pub disabled: Option<Seq<char>>,
    pub template: Seq<char>,
}

impl ButtonView {
    pub open spec fn markup(self, langid: Seq<char>) -> Seq<char> {
        "<button"@ + attr("type"@, button_type_value(self.button_type)) + opt_attr(
            "id"@,
            prefixed("edit-"@, self.name),
        ) + opt_attr("class"@, self.classes.value()) + opt_attr("name"@, self.name) + opt_attr(
            "value"@,
            self.value.value(langid),
        ) + opt_attr("autofocus"@, self.autofocus) + opt_attr("disabled"@, self.disabled) + ">"@
            + self.value.markup(langid) + "</button>"@
    }

    /// A button without classes and without a value.
    pub open spec fn bare() -> ButtonView {
        ButtonView { classes: ClassesView::empty(), ..Self::initial() }
    }

    /// The component as `Button::new` makes it.
    pub open spec fn initial() -> ButtonView {
        ButtonView {
            weight: 0,
            renderable: IsRenderableView::Always,
            classes: ClassesView::empty().altered(
                ClassesOpView::Add,
                "btn btn-primary form-button"@,
            ),
            button_type: ButtonType::Button,
            name: None,
            value: L10nView::empty(),
            autofocus: None,
            disabled: None,
            template: "default"@,
        }
    }

    /// The component after `change`; a change it has no use for leaves it as it is.
    pub open spec fn changed(self, change: ComponentChangeView) -> ButtonView {
        match change {
            ComponentChangeView::Id(id) => self,
            ComponentChangeView::Classes(op, classes) => ButtonView {
                classes: self.classes.altered(op, classes),
                ..self
            },
            ComponentChangeView::Weight(w) => ButtonView { weight: w, ..self },
            ComponentChangeView::Renderable(r) => ButtonView { renderable: r, ..self },
        }
    }
}

/// A button of a form.
pub struct Button {
    pub(crate) weight: Weight,
    pub(crate) renderable: Renderable,
    pub(crate) classes: Classes,
    pub(crate) button_type: ButtonType,
    pub(crate) name: OptionString,
    pub(crate) value: L10n,
    pub(crate) autofocus: OptionString,
    pub(crate) disabled: OptionString,
    pub(crate) template: String,
}

impl View for Button {
    type V = ButtonView;

    closed spec fn view(&self) -> ButtonView
    {
        ButtonView {
            weight: self.weight,
            renderable: self.renderable@,
            classes: self.classes@,
            button_type: self.button_type,
            name: self.name@,
            value: self.value@,
            autofocus: self.autofocus@,
            disabled: self.disabled@,
            template: self.template@,
        }
    }
}

impl Button {
    fn bare() -> (r: Self)
        ensures
            r@ == ButtonView::bare(),
    {
        let mut b = <Button as ComponentTrait>::new();
        b.classes = Classes::new();
        b
    }

    /// A plain button that shows `value`.
    pub fn with(value: L10n) -> (r: Self)
        ensures
            r@ == (ButtonView { value: value@, ..ButtonView::bare() }),
    {
        Button::bare().with_value(value)
    }

    /// A button that sends the form.
    pub fn submit(value: L10n) -> (r: Self)
        ensures
            r@ == (ButtonView {
                classes: ClassesView::empty().altered(
                    ClassesOpView::Replace("form-button"@),
                    "form-submit"@,
                ),
                value: value@,
                button_type: ButtonType::Submit,
                ..ButtonView::bare()
            }),
    {
        let mut b = Button::bare().with_classes(
            ClassesOp::Replace("form-button".to_owned()),
            "form-submit",
        ).with_value(value);
        b.button_type = ButtonType::Submit;
        b
    }

    /// A button that resets the form.
    pub fn reset(value: L10n) -> (r: Self)
        ensures
            r@ == (ButtonView {
                classes: ClassesView::empty().altered(
                    ClassesOpView::Replace("form-button"@),
                    "form-reset"@,
                ),
                value: value@,
                button_type: ButtonType::Reset,
                ..ButtonView::bare()
            }),
    {
        let mut b = Button::bare().with_classes(
            ClassesOp::Replace("form-button".to_owned()),
            "form-reset",
        ).with_value(value);
        b.button_type = ButtonType::Reset;
        b
    }

    pub fn alter_weight(&mut self, value: Weight) -> (r: &mut Self)
        ensures
            r@ == (ButtonView { weight: value, ..old(self)@ }),
            *final(self) == *final(r),
    {
        self.weight = value;
        self
    }

    pub fn with_weight(self, value: Weight) -> (r: Self)
        ensures
            r@ == (ButtonView { weight: value, ..self@ }),
    {
        let mut c = self;
        c.alter_weight(value);
        c
    }

    pub fn alter_renderable(&mut self, check: FnIsRenderable) -> (r: &mut Self)
        ensures
            r@ == (ButtonView { renderable: check@, ..old(self)@ }),
            *final(self) == *final(r),
    {
        self.renderable.check = check;
        self
    }

    pub fn with_renderable(self, check: FnIsRenderable) -> (r: Self)
        ensures
            r@ == (ButtonView { renderable: check@, ..self@ }),
    {
        let mut c = self;
        c.alter_renderable(check);
        c
    }

    pub fn alter_classes(&mut self, op: ClassesOp, classes: &str) -> (r: &mut Self)
        ensures
            r@ == (ButtonView { classes: old(self)@.classes.altered(op@, classes@), ..old(self)@ }),
            *final(self) == *final(r),
    {
        self.classes.alter_value(op, classes);
        self
    }

    pub fn with_classes(self, op: ClassesOp, classes: &str) -> (r: Self)
        ensures
            r@ == (ButtonView { classes: self@.classes.altered(op@, classes@), ..self@ }),
    {
        let mut c = self;
        c.alter_classes(op, classes);
        c
    }

    pub fn alter_name(&mut self, name: &str) -> (r: &mut Self)
        ensures
            r@ == (ButtonView { name: non_empty(trimmed(name@)), ..old(self)@ }),
            *final(self) == *final(r),
    {
        self.name.alter_value(name);
        self
    }

    pub fn with_name(self, name: &str) -> (r: Self)
        ensures
            r@ == (ButtonView { name: non_empty(trimmed(name@)), ..self@ }),
    {
        let mut c = self;
        c.alter_name(name);
        c
    }

    pub fn alter_value(&mut self, value: L10n) -> (r: &mut Self)
        ensures
            r@ == (ButtonView { value: value@, ..old(self)@ }),
            *final(self) == *final(r),
    {
        self.value = value;
        self
    }

    pub fn with_value(self, value: L10n) -> (r: Self)
        ensures
            r@ == (ButtonView { value: value@, ..self@ }),
    {
        let mut c = self;
        c.alter_value(value);
        c
    }

    pub fn alter_autofocus(&mut self, toggle: bool) -> (r: &mut Self)
        ensures
            r@ == (ButtonView {
                autofocus: if toggle {
                    non_empty("autofocus"@)
                } else {
                    None
                },
                ..old(self)@
            }),
            *final(self) == *final(r),
    {
        self.autofocus.alter_flag(toggle, "autofocus");
        self
    }

    pub fn with_autofocus(self, toggle: bool) -> (r: Self)
        ensures
            r@ == (ButtonView {
                autofocus: if toggle {
                    non_empty("autofocus"@)
                } else {
                    None
                },
                ..self@
            }),
    {
        let mut c = self;
        c.alter_autofocus(toggle);
        c
    }

    pub fn alter_disabled(&mut self, toggle: bool) -> (r: &mut Self)
        ensures
            r@ == (ButtonView {
                disabled: if toggle {
                    non_empty("disabled"@)
                } else {
                    None
                },
                ..old(self)@
            }),
            *final(self) == *final(r),
    {
        self.disabled.alter_flag(toggle, "disabled");
        self
    }

    pub fn with_disabled(self, toggle: bool) -> (r: Self)
        ensures
            r@ == (ButtonView {
                disabled: if toggle {
                    non_empty("disabled"@)
                } else {
                    None
                },
                ..self@
            }),
    {
        let mut c = self;
        c.alter_disabled(toggle);
        c
    }

    pub fn alter_template(&mut self, template: &str) -> (r: &mut Self)
        ensures
            r@ == (ButtonView { template: template@, ..old(self)@ }),
            *final(self) == *final(r),
    {
        self.template = template.to_owned();
        self
    }

    pub fn with_template(self, template: &str) -> (r: Self)
        ensures
            r@ == (ButtonView { template: template@, ..self@ }),
    {
        let mut c = self;
        c.alter_template(template);
        c
    }

    pub fn using_template(self, template: &str) -> (r: Self)
        ensures
            r@ == (ButtonView { template: template@, ..self@ }),
    {
        let mut c = self;
        c.alter_template(template);
        c
    }

    pub fn classes(&self) -> (r: &Classes)
        ensures
            r@ == self@.classes,
    {
        &self.classes
    }

    pub fn button_type(&self) -> (r: &ButtonType)
        ensures
            *r == self@.button_type,
    {
        &self.button_type
    }

    pub fn name(&self) -> (r: &OptionString)
        ensures
            r@ == self@.name,
    {
        &self.name
    }

    pub fn value(&self) -> (r: &L10n)
        ensures
            r@ == self@.value,
    {
        &self.value
    }

    pub fn autofocus(&self) -> (r: &OptionString)
        ensures
            r@ == self@.autofocus,
    {
        &self.autofocus
    }

    pub fn disabled(&self) -> (r: &OptionString)
        ensures
            r@ == self@.disabled,
    {
        &self.disabled
    }

    pub fn template(&self) -> (r: &str)
        ensures
            r@ == self@.template,
    {
        self.template.as_str()
    }

    /// Applies `change` to the component.
    pub fn apply(&mut self, change: &ComponentChange)
        ensures
            final(self)@ == old(self)@.changed(change@),
    {
        match change {
            ComponentChange::Id(id) => {},
            ComponentChange::Classes(op, classes) => {
                self.alter_classes(op.duplicate(), classes.as_str());
            },
            ComponentChange::Weight(w) => {
                self.alter_weight(*w);
            },
            ComponentChange::Renderable(r) => {
                self.alter_renderable(r.duplicate());
            },
        }
    }

    /// The markup of the button in the language of `cx`.
    pub fn prepare(&self, cx: &Context) -> (m: Markup)
        ensures
            m@ == self@.markup(cx@.langid),
    {
        let button_type = match self.button_type {
            ButtonType::Button => "button",
            ButtonType::Submit => "submit",
            ButtonType::Reset => "reset",
        };
        let name = self.name.get();
        let id = prefix_name("edit-", &name);
        let classes = self.classes.get();
        let value = self.value.using(cx.langid());
        let autofocus = self.autofocus.get();
        let disabled = self.disabled.get();
        let text = self.value.escaped(cx.langid());
        let mut m = Markup::raw("<button");
        m.push_attr("type", button_type);
        m.push_opt_attr("id", &id);
        m.push_opt_attr("class", &classes);
        m.push_opt_attr("name", &name);
        m.push_opt_attr("value", &value);
        m.push_opt_attr("autofocus", &autofocus);
        m.push_opt_attr("disabled", &disabled);
        m.push_raw(">");
        m.push(&text);
        m.push_raw("</button>");
        m
    }
}

impl ComponentTrait for Button {
    open spec fn as_view(&self) -> ComponentView {
        ComponentView::Button(self@)
    }

    open spec fn is_kind(c: ComponentView) -> bool {
        c is Button
    }

    fn from_any(component: &AnyComponent) -> (r: Option<&Self>) {
        proof {
            lemma_view_of_kind(*component);
        }
        match component {
            AnyComponent::Button(c) => Some(c),
            _ => None,
        }
    }

    fn from_any_mut(component: &mut AnyComponent) -> (r: Option<&mut Self>) {
        proof {
            lemma_view_of_kind(*component);
        }
        match component {
            AnyComponent::Button(c) => {
                proof {
                    lemma_view_of_kind(AnyComponent::Button(*final(c)));
                }
                Some(c)
            },
            _ => None,
        }
    }

    fn new() -> (r: Self)
        ensures
            r@ == ButtonView::initial(),
    {
        Button {
            weight: 0,
            renderable: Renderable::new(),
            classes: Classes::new().with_value(ClassesOp::Add, "btn btn-primary form-button"),
            button_type: ButtonType::Button,
            name: OptionString::new(),
            value: L10n::new(),
            autofocus: OptionString::new(),
            disabled: OptionString::new(),
            template: "default".to_owned(),
        }
    }

    fn handle(&self) -> (h: Handle) {
        COMPONENT_BUTTON
    }

    fn weight(&self) -> (w: Weight) {
        self.weight
    }

    fn is_renderable(&self, cx: &Context) -> (b: bool) {
        self.renderable.holds(cx)
    }

    fn default_render<T: ThemeTrait + ?Sized>(
        &mut self,
        cx: &mut Context,
        theme: &T,
        actions: &ActionsRegistry,
    ) -> (m: Markup) {
        self.prepare(cx)
    }
}

} // verus!
