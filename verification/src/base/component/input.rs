//! A field of a form that takes a line of text.

use crate::base::component::hidden::{prefix_name, prefixed};
use crate::text::{decimal, push_decimal};
use crate::action::{ActionsRegistry, ComponentChange, ComponentChangeView};
use crate::base::component::l10n::{L10n, L10nView};
use crate::component::{
    lemma_view_of_kind, AnyComponent, ComponentTrait, ComponentView, FnIsRenderable,
    IsRenderableView, Renderable, COMPONENT_INPUT,
};
use crate::context::Context;
use crate::handle::Handle;
use crate::html::classes::{Classes, ClassesOp, ClassesOpView, ClassesView};
use crate::html::markup::{attr, escaped, opt_attr, opt_view, Markup};
use crate::html::opt_id::{identifier, non_empty, OptionId};
use crate::html::opt_string::OptionString;
use crate::order::Weight;
use crate::text::trimmed;
use crate::theme::ThemeTrait;
use vstd::prelude::*;

verus! {

/// What a field takes.
#[derive(Clone, Copy, Debug, PartialEq, Eq, Structural)]
pub enum InputType {
    Textfield,
    Password,
    Search,
    Email,
    Telephone,
    Url,
}

/// The value of the `type` attribute for an input type.
pub open spec fn input_type_value(t: InputType) -> Seq<char> {
    match t {
        InputType::Textfield => "text"@,
        InputType::Password => "password"@,
        InputType::Search => "search"@,
        InputType::Email => "email"@,
        InputType::Telephone => "tel"@,
        InputType::Url => "url"@,
    }
}

/// The class that marks a field of an input type.
pub open spec fn input_type_class(t: InputType) -> Seq<char> {
    match t {
        InputType::Textfield => "form-type-textfield"@,
        InputType::Password => "form-type-password"@,
        InputType::Search => "form-type-search"@,
        InputType::Email => "form-type-email"@,
        InputType::Telephone => "form-type-telephone"@,
        InputType::Url => "form-type-url"@,
    }
}

/// A number as the value of an attribute.
pub open spec fn number_value(n: Option<u16>) -> Option<Seq<char>> {
    match n {
        Some(v) => Some(decimal(v as nat)),
        None => None,
    }
}

/// A number as the value of an attribute.
pub fn number_attr(n: Option<u16>) -> (r: Option<String>)
    ensures
        opt_view(r) == number_value(n),
{
    match n {
        Some(v) => {
            let mut s = String::new();
            push_decimal(&mut s, v as u64);
            assert(Seq::<char>::empty() + decimal(v as nat) == decimal(v as nat));
            Some(s)
        },
        None => None,
    }
}

/// The label of a field: the text, and a mark if the field is required.
pub open spec fn label_markup(
    label: Option<Seq<char>>,
    id: Option<Seq<char>>,
    required: Option<Seq<char>>,
) -> Seq<char> {
    match label {
        Some(text) => "<label class=\"form-label\""@ + opt_attr("for"@, id) + ">"@ + escaped(text)
            + " "@ + (if required is Some {
            "<span class=\"form-required\" title=\"Este campo es obligatorio.\">*</span> "@
        } else {
            Seq::empty()
        }) + "</label>"@,
        None => Seq::empty(),
    }
}

/// The help text below a field.
pub open spec fn help_markup(help: Option<Seq<char>>) -> Seq<char> {
    match help {
        Some(text) => "<div class=\"form-text\">"@ + escaped(text) + "</div>"@,
        None => Seq::empty(),
    }
}

/// A `Input` as a mathematical value.
pub struct InputView {
    pub weight: Weight,
    pub renderable: IsRenderableView,
    pub classes: ClassesView,
    pub input_type: InputType,
    pub name: Option<Seq<char>>,
    pub value: Option<Seq<char>>,
    pub label: L10nView,
    pub size: Option<u16>,
    pub minlength: Option<u16>,
    pub maxlength: Option<u16>,
    pub placeholder: Option<Seq<char>>,
    pub autofocus: Option<Seq<char>>,
    pub autocomplete: Option<Seq<char>>,
    pub disabled: Option<Seq<char>>,
    pub readonly: Option<Seq<char>>,
    pub required: Option<Seq<char>>,
    pub help_text: L10nView,
    pub template: Seq<char>,
}

impl InputView {
    pub open spec fn markup(self, langid: Seq<char>) -> Seq<char> {
        let id = prefixed("edit-"@, self.name);
        "<div"@ + opt_attr("class"@, self.classes.value()) + ">"@ + label_markup(
            self.label.value(langid),
            id,
            self.required,
        ) + "<input"@ + attr("type"@, input_type_value(self.input_type)) + opt_attr("id"@, id)
            + " class=\"form-control\""@ + opt_attr("name"@, self.name) + opt_attr(
            "value"@,
            self.value,
        ) + opt_attr("size"@, number_value(self.size)) + opt_attr(
            "minlength"@,
            number_value(self.minlength),
        ) + opt_attr("maxlength"@, number_value(self.maxlength)) + opt_attr(
            "placeholder"@,
            self.placeholder,
        ) + opt_attr("autofocus"@, self.autofocus) + opt_attr("autocomplete"@, self.autocomplete)
            + opt_attr("readonly"@, self.readonly) + opt_attr("required"@, self.required)
            + opt_attr("disabled"@, self.disabled) + "></input>"@ + help_markup(
            self.help_text.value(langid),
        ) + "</div>"@
    }

    /// A field without classes and without limits.
    pub open spec fn bare() -> InputView {
        InputView { classes: ClassesView::empty(), size: None, maxlength: None, ..Self::initial() }
    }

    /// A bare field of the type `t`, with the class of the type in the place
    /// of that of a text field.
    pub open spec fn of_type(t: InputType) -> InputView {
        InputView {
            classes: ClassesView::empty().altered(
                ClassesOpView::Replace("form-type-textfield"@),
                input_type_class(t),
            ),
            input_type: t,
            ..Self::bare()
        }
    }

    /// The classes after the field was renamed from what it is called to `name`.
    pub open spec fn renamed_classes(self, name: Seq<char>) -> ClassesView {
        (match self.name {
            Some(previous) => self.classes.altered(ClassesOpView::Remove, "form-item-"@ + previous),
            None => self.classes,
        }).altered(ClassesOpView::Add, "form-item-"@ + name)
    }

    /// The component as `Input::new` makes it.
    pub open spec fn initial() -> InputView {
        InputView {
            weight: 0,
            renderable: IsRenderableView::Always,
            classes: ClassesView::empty().altered(
                ClassesOpView::Add,
                "form-item form-type-textfield"@,
            ),
            input_type: InputType::Textfield,
            name: None,
            value: None,
            label: L10nView::empty(),
            size: Some(60u16),
            minlength: None,
            maxlength: Some(128u16),
            placeholder: None,
            autofocus: None,
            autocomplete: None,
            disabled: None,
            readonly: None,
            required: None,
            help_text: L10nView::empty(),
            template: "default"@,
        }
    }

    /// The component after `change`; a change it has no use for leaves it as it is.
    pub open spec fn changed(self, change: ComponentChangeView) -> InputView {
        match change {
            ComponentChangeView::Id(id) => self,
            ComponentChangeView::Classes(op, classes) => InputView {
                classes: self.classes.altered(op, classes),
                ..self
            },
            ComponentChangeView::Weight(w) => InputView { weight: w, ..self },
            ComponentChangeView::Renderable(r) => InputView { renderable: r, ..self },
        }
    }
}

/// A field of a form that takes a line of text.
pub struct Input {
    pub(crate) weight: Weight,
    pub(crate) renderable: Renderable,
    pub(crate) classes: Classes,
    pub(crate) input_type: InputType,
    pub(crate) name: OptionId,
    pub(crate) value: OptionString,
    pub(crate) label: L10n,
    pub(crate) size: Option<u16>,
    pub(crate) minlength: Option<u16>,
    pub(crate) maxlength: Option<u16>,
    pub(crate) placeholder: OptionString,
    pub(crate) autofocus: OptionString,
    pub(crate) autocomplete: OptionString,
    pub(crate) disabled: OptionString,
    pub(crate) readonly: OptionString,
    pub(crate) required: OptionString,
    pub(crate) help_text: L10n,
    pub(crate) template: String,
}

impl View for Input {
    type V = InputView;

    closed spec fn view(&self) -> InputView
    {
        InputView {
            weight: self.weight,
            renderable: self.renderable@,
            classes: self.classes@,
            input_type: self.input_type,
            name: self.name@,
            value: self.value@,
            label: self.label@,
            size: self.size,
            minlength: self.minlength,
            maxlength: self.maxlength,
            placeholder: self.placeholder@,
            autofocus: self.autofocus@,
            autocomplete: self.autocomplete@,
            disabled: self.disabled@,
            readonly: self.readonly@,
            required: self.required@,
            help_text: self.help_text@,
            template: self.template@,
        }
    }
}

impl Input {
    fn bare() -> (r: Self)
        ensures
            r@ == InputView::bare(),
    {
        let mut i = <Input as ComponentTrait>::new();
        i.classes = Classes::new();
        i.size = None;
        i.maxlength = None;
        i
    }

    fn of_type(t: InputType, class: &str) -> (r: Self)
        requires
            class@ == input_type_class(t),
        ensures
            r@ == InputView::of_type(t),
    {
        let mut i = Input::bare().with_classes(
            ClassesOp::Replace("form-type-textfield".to_owned()),
            class,
        );
        i.input_type = t;
        i
    }

    /// A field for text.
    pub fn textfield() -> (r: Self)
        ensures
            r@ == InputView::bare(),
    {
        Input::bare()
    }

    /// A field for a password.
    pub fn password() -> (r: Self)
        ensures
            r@ == InputView::of_type(InputType::Password),
    {
        Input::of_type(InputType::Password, "form-type-password")
    }

    /// A field for a search.
    pub fn search() -> (r: Self)
        ensures
            r@ == InputView::of_type(InputType::Search),
    {
        Input::of_type(InputType::Search, "form-type-search")
    }

    /// A field for an e-mail address.
    pub fn email() -> (r: Self)
        ensures
            r@ == InputView::of_type(InputType::Email),
    {
        Input::of_type(InputType::Email, "form-type-email")
    }

    /// A field for a telephone number.
    pub fn telephone() -> (r: Self)
        ensures
            r@ == InputView::of_type(InputType::Telephone),
    {
        Input::of_type(InputType::Telephone, "form-type-telephone")
    }

    /// A field for an address on the web.
    pub fn url() -> (r: Self)
        ensures
            r@ == InputView::of_type(InputType::Url),
    {
        Input::of_type(InputType::Url, "form-type-url")
    }

    /// Names the field, and marks it with the class `form-item-` and the
    /// name, in the place of the class that its earlier name gave it.
    pub fn alter_name(&mut self, name: &str) -> (r: &mut Self)
        ensures
            r@ == (InputView {
                classes: old(self)@.renamed_classes(name@),
                name: non_empty(identifier(name@)),
                ..old(self)@
            }),
            *final(self) == *final(r),
    {
        match self.name.get() {
            Some(previous) => {
                let mut class = "form-item-".to_owned();
                class.append(previous.as_str());
                self.classes.alter_value(ClassesOp::Remove, class.as_str());
            },
            None => {},
        }
        let mut class = "form-item-".to_owned();
        class.append(name);
        self.classes.alter_value(ClassesOp::Add, class.as_str());
        self.name.alter_value(name);
        self
    }

    pub fn with_name(self, name: &str) -> (r: Self)
        ensures
            r@ == (InputView {
                classes: self@.renamed_classes(name@),
                name: non_empty(identifier(name@)),
                ..self@
            }),
    {
        let mut c = self;
        c.alter_name(name);
        c
    }

    pub fn alter_weight(&mut self, value: Weight) -> (r: &mut Self)
        ensures
            r@ == (InputView { weight: value, ..old(self)@ }),
            *final(self) == *final(r),
    {
        self.weight = value;
        self
    }

    pub fn with_weight(self, value: Weight) -> (r: Self)
        ensures
            r@ == (InputView { weight: value, ..self@ }),
    {
        let mut c = self;
        c.alter_weight(value);
        c
    }

    pub fn alter_renderable(&mut self, check: FnIsRenderable) -> (r: &mut Self)
        ensures
            r@ == (InputView { renderable: check@, ..old(self)@ }),
            *final(self) == *final(r),
    {
        self.renderable.check = check;
        self
    }

    pub fn with_renderable(self, check: FnIsRenderable) -> (r: Self)
        ensures
            r@ == (InputView { renderable: check@, ..self@ }),
    {
        let mut c = self;
        c.alter_renderable(check);
        c
    }

    pub fn alter_classes(&mut self, op: ClassesOp, classes: &str) -> (r: &mut Self)
        ensures
            r@ == (InputView { classes: old(self)@.classes.altered(op@, classes@), ..old(self)@ }),
            *final(self) == *final(r),
    {
        self.classes.alter_value(op, classes);
        self
    }

    pub fn with_classes(self, op: ClassesOp, classes: &str) -> (r: Self)
        ensures
            r@ == (InputView { classes: self@.classes.altered(op@, classes@), ..self@ }),
    {
        let mut c = self;
        c.alter_classes(op, classes);
        c
    }

    pub fn alter_value(&mut self, value: &str) -> (r: &mut Self)
        ensures
            r@ == (InputView { value: non_empty(trimmed(value@)), ..old(self)@ }),
            *final(self) == *final(r),
    {
        self.value.alter_value(value);
        self
    }

    pub fn with_value(self, value: &str) -> (r: Self)
        ensures
            r@ == (InputView { value: non_empty(trimmed(value@)), ..self@ }),
    {
        let mut c = self;
        c.alter_value(value);
        c
    }

    pub fn alter_label(&mut self, label: L10n) -> (r: &mut Self)
        ensures
            r@ == (InputView { label: label@, ..old(self)@ }),
            *final(self) == *final(r),
    {
        self.label = label;
        self
    }

    pub fn with_label(self, label: L10n) -> (r: Self)
        ensures
            r@ == (InputView { label: label@, ..self@ }),
    {
        let mut c = self;
        c.alter_label(label);
        c
    }

    pub fn alter_size(&mut self, size: Option<u16>) -> (r: &mut Self)
        ensures
            r@ == (InputView { size: size, ..old(self)@ }),
            *final(self) == *final(r),
    {
        self.size = size;
        self
    }

    pub fn with_size(self, size: Option<u16>) -> (r: Self)
        ensures
            r@ == (InputView { size: size, ..self@ }),
    {
        let mut c = self;
        c.alter_size(size);
        c
    }

    pub fn alter_minlength(&mut self, minlength: Option<u16>) -> (r: &mut Self)
        ensures
            r@ == (InputView { minlength: minlength, ..old(self)@ }),
            *final(self) == *final(r),
    {
        self.minlength = minlength;
        self
    }

    pub fn with_minlength(self, minlength: Option<u16>) -> (r: Self)
        ensures
            r@ == (InputView { minlength: minlength, ..self@ }),
    {
        let mut c = self;
        c.alter_minlength(minlength);
        c
    }

    pub fn alter_maxlength(&mut self, maxlength: Option<u16>) -> (r: &mut Self)
        ensures
            r@ == (InputView { maxlength: maxlength, ..old(self)@ }),
            *final(self) == *final(r),
    {
        self.maxlength = maxlength;
        self
    }

    pub fn with_maxlength(self, maxlength: Option<u16>) -> (r: Self)
        ensures
            r@ == (InputView { maxlength: maxlength, ..self@ }),
    {
        let mut c = self;
        c.alter_maxlength(maxlength);
        c
    }

    pub fn alter_placeholder(&mut self, placeholder: &str) -> (r: &mut Self)
        ensures
            r@ == (InputView { placeholder: non_empty(trimmed(placeholder@)), ..old(self)@ }),
            *final(self) == *final(r),
    {
        self.placeholder.alter_value(placeholder);
        self
    }

    pub fn with_placeholder(self, placeholder: &str) -> (r: Self)
        ensures
            r@ == (InputView { placeholder: non_empty(trimmed(placeholder@)), ..self@ }),
    {
        let mut c = self;
        c.alter_placeholder(placeholder);
        c
    }

    pub fn alter_autofocus(&mut self, toggle: bool) -> (r: &mut Self)
        ensures
            r@ == (InputView {
                autofocus: if toggle {
                    non_empty("autofocus"@)
                } else {
                    None
                },
                ..old(self)@
            }),
            *final(self) == *final(r),
    {
        self.autofocus.alter_flag(toggle, "autofocus");
        self
    }

    pub fn with_autofocus(self, toggle: bool) -> (r: Self)
        ensures
            r@ == (InputView {
                autofocus: if toggle {
                    non_empty("autofocus"@)
                } else {
                    None
                },
                ..self@
            }),
    {
        let mut c = self;
        c.alter_autofocus(toggle);
        c
    }

    pub fn alter_autocomplete(&mut self, toggle: bool) -> (r: &mut Self)
        ensures
            r@ == (InputView {
                autocomplete: if toggle {
                    None
                } else {
                    non_empty("off"@)
                },
                ..old(self)@
            }),
            *final(self) == *final(r),
    {
        self.autocomplete.alter_flag(!toggle, "off");
        self
    }

    pub fn with_autocomplete(self, toggle: bool) -> (r: Self)
        ensures
            r@ == (InputView {
                autocomplete: if toggle {
                    None
                } else {
                    non_empty("off"@)
                },
                ..self@
            }),
    {
        let mut c = self;
        c.alter_autocomplete(toggle);
        c
    }

    pub fn alter_disabled(&mut self, toggle: bool) -> (r: &mut Self)
        ensures
            r@ == (InputView {
                disabled: if toggle {
                    non_empty("disabled"@)
                } else {
                    None
                },
                ..old(self)@
            }),
            *final(self) == *final(r),
    {
        self.disabled.alter_flag(toggle, "disabled");
        self
    }

    pub fn with_disabled(self, toggle: bool) -> (r: Self)
        ensures
            r@ == (InputView {
                disabled: if toggle {
                    non_empty("disabled"@)
                } else {
                    None
                },
                ..self@
            }),
    {
        let mut c = self;
        c.alter_disabled(toggle);
        c
    }

    pub fn alter_readonly(&mut self, toggle: bool) -> (r: &mut Self)
        ensures
            r@ == (InputView {
                readonly: if toggle {
                    non_empty("readonly"@)
                } else {
                    None
                },
                ..old(self)@
            }),
            *final(self) == *final(r),
    {
        self.readonly.alter_flag(toggle, "readonly");
        self
    }

    pub fn with_readonly(self, toggle: bool) -> (r: Self)
        ensures
            r@ == (InputView {
                readonly: if toggle {
                    non_empty("readonly"@)
                } else {
                    None
                },
                ..self@
            }),
    {
        let mut c = self;
        c.alter_readonly(toggle);
        c
    }

    pub fn alter_required(&mut self, toggle: bool) -> (r: &mut Self)
        ensures
            r@ == (InputView {
                required: if toggle {
                    non_empty("required"@)
                } else {
                    None
                },
                ..old(self)@
            }),
            *final(self) == *final(r),
    {
        self.required.alter_flag(toggle, "required");
        self
    }

    pub fn with_required(self, toggle: bool) -> (r: Self)
        ensures
            r@ == (InputView {
                required: if toggle {
                    non_empty("required"@)
                } else {
                    None
                },
                ..self@
            }),
    {
        let mut c = self;
        c.alter_required(toggle);
        c
    }

    pub fn alter_help_text(&mut self, help_text: L10n) -> (r: &mut Self)
        ensures
            r@ == (InputView { help_text: help_text@, ..old(self)@ }),
            *final(self) == *final(r),
    {
        self.help_text = help_text;
        self
    }

    pub fn with_help_text(self, help_text: L10n) -> (r: Self)
        ensures
            r@ == (InputView { help_text: help_text@, ..self@ }),
    {
        let mut c = self;
        c.alter_help_text(help_text);
        c
    }

    pub fn alter_template(&mut self, template: &str) -> (r: &mut Self)
        ensures
            r@ == (InputView { template: template@, ..old(self)@ }),
            *final(self) == *final(r),
    {
        self.template = template.to_owned();
        self
    }

    pub fn with_template(self, template: &str) -> (r: Self)
        ensures
            r@ == (InputView { template: template@, ..self@ }),
    {
        let mut c = self;
        c.alter_template(template);
        c
    }

    pub fn using_template(self, template: &str) -> (r: Self)
        ensures
            r@ == (InputView { template: template@, ..self@ }),
    {
        let mut c = self;
        c.alter_template(template);
        c
    }

    pub fn has_autofocus(&self) -> (b: bool)
        ensures
            b == self@.autofocus is Some,
    {
        self.autofocus.get().is_some()
    }

    pub fn has_autocomplete(&self) -> (b: bool)
        ensures
            b == self@.autocomplete is None,
    {
        self.autocomplete.get().is_none()
    }

    pub fn is_disabled(&self) -> (b: bool)
        ensures
            b == self@.disabled is Some,
    {
        self.disabled.get().is_some()
    }

    pub fn is_readonly(&self) -> (b: bool)
        ensures
            b == self@.readonly is Some,
    {
        self.readonly.get().is_some()
    }

    pub fn is_required(&self) -> (b: bool)
        ensures
            b == self@.required is Some,
    {
        self.required.get().is_some()
    }

    pub fn classes(&self) -> (r: &Classes)
        ensures
            r@ == self@.classes,
    {
        &self.classes
    }

    pub fn input_type(&self) -> (r: &InputType)
        ensures
            *r == self@.input_type,
    {
        &self.input_type
    }

    pub fn name(&self) -> (r: &OptionId)
        ensures
            r@ == self@.name,
    {
        &self.name
    }

    pub fn value(&self) -> (r: &OptionString)
        ensures
            r@ == self@.value,
    {
        &self.value
    }

    pub fn label(&self) -> (r: &L10n)
        ensures
            r@ == self@.label,
    {
        &self.label
    }

    pub fn size(&self) -> (r: Option<u16>)
        ensures
            r == self@.size,
    {
        self.size
    }

    pub fn minlength(&self) -> (r: Option<u16>)
        ensures
            r == self@.minlength,
    {
        self.minlength
    }

    pub fn maxlength(&self) -> (r: Option<u16>)
        ensures
            r == self@.maxlength,
    {
        self.maxlength
    }

    pub fn placeholder(&self) -> (r: &OptionString)
        ensures
            r@ == self@.placeholder,
    {
        &self.placeholder
    }

    pub fn autofocus(&self) -> (r: &OptionString)
        ensures
            r@ == self@.autofocus,
    {
        &self.autofocus
    }

    pub fn autocomplete(&self) -> (r: &OptionString)
        ensures
            r@ == self@.autocomplete,
    {
        &self.autocomplete
    }

    pub fn disabled(&self) -> (r: &OptionString)
        ensures
            r@ == self@.disabled,
    {
        &self.disabled
    }

    pub fn readonly(&self) -> (r: &OptionString)
        ensures
            r@ == self@.readonly,
    {
        &self.readonly
    }

    pub fn required(&self) -> (r: &OptionString)
        ensures
            r@ == self@.required,
    {
        &self.required
    }

    pub fn help_text(&self) -> (r: &L10n)
        ensures
            r@ == self@.help_text,
    {
        &self.help_text
    }

    pub fn template(&self) -> (r: &str)
        ensures
            r@ == self@.template,
    {
        self.template.as_str()
    }

    /// Applies `change` to the component.
    pub fn apply(&mut self, change: &ComponentChange)
        ensures
            final(self)@ == old(self)@.changed(change@),
    {
        match change {
            ComponentChange::Id(id) => {},
            ComponentChange::Classes(op, classes) => {
                self.alter_classes(op.duplicate(), classes.as_str());
            },
            ComponentChange::Weight(w) => {
                self.alter_weight(*w);
            },
            ComponentChange::Renderable(r) => {
                self.alter_renderable(r.duplicate());
            },
        }
    }

    /// The markup of the field in the language of `cx`.
    pub fn prepare(&self, cx: &Context) -> (m: Markup)
        ensures
            m@ == self@.markup(cx@.langid),
    {
        let type_input = match self.input_type {
            InputType::Textfield => "text",
            InputType::Password => "password",
            InputType::Search => "search",
            InputType::Email => "email",
            InputType::Telephone => "tel",
            InputType::Url => "url",
        };
        let name = self.name.get();
        let id = prefix_name("edit-", &name);
        let classes = self.classes.get();
        let label = self.label.using(cx.langid());
        let required = self.required.get();
        let mut m = Markup::raw("<div");
        m.push_opt_attr("class", &classes);
        m.push_raw(">");
        let ghost open = m@;
        match &label {
            Some(text) => {
                m.push_raw("<label class=\"form-label\"");
                m.push_opt_attr("for", &id);
                m.push_raw(">");
                m.push_text(text.as_str());
                m.push_raw(" ");
                if required.is_some() {
                    m.push_raw(
                        "<span class=\"form-required\" title=\"Este campo es obligatorio.\">*</span> ",
                    );
                } else {
                    assert(m@ + Seq::<char>::empty() == m@);
                }
                m.push_raw("</label>");
            },
            None => {
                assert(m@ + Seq::<char>::empty() == m@);
            },
        }
        assert(m@ == open + label_markup(opt_view(label), opt_view(id), opt_view(required)));
        let value = self.value.get();
        let size = number_attr(self.size);
        let minlength = number_attr(self.minlength);
        let maxlength = number_attr(self.maxlength);
        let placeholder = self.placeholder.get();
        let autofocus = self.autofocus.get();
        let autocomplete = self.autocomplete.get();
        let readonly = self.readonly.get();
        let disabled = self.disabled.get();
        m.push_raw("<input");
        m.push_attr("type", type_input);
        m.push_opt_attr("id", &id);
        m.push_raw(" class=\"form-control\"");
        m.push_opt_attr("name", &name);
        m.push_opt_attr("value", &value);
        m.push_opt_attr("size", &size);
        m.push_opt_attr("minlength", &minlength);
        m.push_opt_attr("maxlength", &maxlength);
        m.push_opt_attr("placeholder", &placeholder);
        m.push_opt_attr("autofocus", &autofocus);
        m.push_opt_attr("autocomplete", &autocomplete);
        m.push_opt_attr("readonly", &readonly);
        m.push_opt_attr("required", &required);
        m.push_opt_attr("disabled", &disabled);
        m.push_raw("></input>");
        let ghost field = m@;
        match self.help_text.using(cx.langid()) {
            Some(text) => {
                m.push_raw("<div class=\"form-text\">");
                m.push_text(text.as_str());
                m.push_raw("</div>");
                assert(m@ == field + help_markup(Some(text@)));
            },
            None => {
                assert(m@ + Seq::<char>::empty() == m@);
            },
        }
        m.push_raw("</div>");
        m
    }
}

impl ComponentTrait for Input {
    open spec fn as_view(&self) -> ComponentView {
        ComponentView::Input(self@)
    }

    open spec fn is_kind(c: ComponentView) -> bool {
        c is Input
    }

    fn from_any(component: &AnyComponent) -> (r: Option<&Self>) {
        proof {
            lemma_view_of_kind(*component);
        }
        match component {
            AnyComponent::Input(c) => Some(c),
            _ => None,
        }
    }

    fn from_any_mut(component: &mut AnyComponent) -> (r: Option<&mut Self>) {
        proof {
            lemma_view_of_kind(*component);
        }
        match component {
            AnyComponent::Input(c) => {
                proof {
                    lemma_view_of_kind(AnyComponent::Input(*final(c)));
                }
                Some(c)
            },
            _ => None,
        }
    }

    fn new() -> (r: Self)
        ensures
            r@ == InputView::initial(),
    {
        Input {
            weight: 0,
            renderable: Renderable::new(),
            classes: Classes::new().with_value(ClassesOp::Add, "form-item form-type-textfield"),
            input_type: InputType::Textfield,
            name: OptionId::new(),
            value: OptionString::new(),
            label: L10n::new(),
            size: Some(60),
            minlength: None,
            maxlength: Some(128),
            placeholder: OptionString::new(),
            autofocus: OptionString::new(),
            autocomplete: OptionString::new(),
            disabled: OptionString::new(),
            readonly: OptionString::new(),
            required: OptionString::new(),
            help_text: L10n::new(),
            template: "default".to_owned(),
        }
    }

    fn handle(&self) -> (h: Handle) {
        COMPONENT_INPUT
    }

    fn weight(&self) -> (w: Weight) {
        self.weight
    }

    fn is_renderable(&self, cx: &Context) -> (b: bool) {
        self.renderable.holds(cx)
    }

    fn default_render<T: ThemeTrait + ?Sized>(
        &mut self,
        cx: &mut Context,
        theme: &T,
        actions: &ActionsRegistry,
    ) -> (m: Markup) {
        self.prepare(cx)
    }
}

} // verus!
