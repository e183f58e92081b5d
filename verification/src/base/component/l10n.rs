//! Text that is shown in the language of the request.

use crate::component::{
    lemma_view_of_kind, AnyComponent, ComponentTrait, ComponentView, COMPONENT_L10N,
};
use crate::context::Context;
use crate::handle::{lemma_position, position, Handle};
use crate::order::Weight;
use crate::action::ActionsRegistry;
use crate::theme::ThemeTrait;
use crate::html::markup::{escaped, opt_view, Markup};
use crate::locale::{arg_views, filled, shown, EntryView, Locales};
use vstd::prelude::*;

verus! {

/// Where the text of an `L10n` comes from.
pub enum L10nOp {
    /// There is no text.
    Void,
    /// The text is given, whatever the language, and escaped when it is shown.
    Text(String),
    /// The markup is the text, whatever the language.
    Value(Markup),
    /// The text is looked up by key, and escaped when it is shown.
    Translated(&'static str, &'static Locales),
    /// The text is looked up by key; the table holds markup.
    Escaped(&'static str, &'static Locales),
}

/// A `L10nOp` as a mathematical value.
pub enum L10nOpView {
    Void,
    Text(Seq<char>),
    Value(Seq<char>),
    Translated(Seq<char>, Seq<EntryView>),
    Escaped(Seq<char>, Seq<EntryView>),
}

impl View for L10nOp {
    type V = L10nOpView;

    open spec fn view(&self) -> L10nOpView {
        match self {
            L10nOp::Void => L10nOpView::Void,
            L10nOp::Text(t) => L10nOpView::Text(t@),
            L10nOp::Value(m) => L10nOpView::Value(m@),
            L10nOp::Translated(key, table) => L10nOpView::Translated(key@, table@),
            L10nOp::Escaped(key, table) => L10nOpView::Escaped(key@, table@),
        }
    }
}

/// A `L10n` as a mathematical value.
pub struct L10nView {
    pub op: L10nOpView,
    pub args: Seq<(Seq<char>, Seq<char>)>,
}

/// The names of the arguments.
pub open spec fn arg_names(args: Seq<(Seq<char>, Seq<char>)>) -> Seq<Seq<char>> {
    args.map_values(|a: (Seq<char>, Seq<char>)| a.0)
}

/// `args` with `value` for `arg`: in the place of its earlier value, or at the end.
pub open spec fn with_arg(args: Seq<(Seq<char>, Seq<char>)>, arg: Seq<char>, value: Seq<char>)
    -> Seq<(Seq<char>, Seq<char>)> {
    let i = position(arg_names(args), arg);
    if i < args.len() {
        args.update(i, (arg, value))
    } else {
        args.push((arg, value))
    }
}

/// No argument has two values: a value that is given for a name takes the
/// place of the one the name had.
pub proof fn lemma_args_stay_distinct(
    args: Seq<(Seq<char>, Seq<char>)>,
    arg: Seq<char>,
    value: Seq<char>,
)
    requires
        arg_names(args).no_duplicates(),
    ensures
        arg_names(with_arg(args, arg, value)).no_duplicates(),
        arg_names(with_arg(args, arg, value)).contains(arg),
{
    let names = arg_names(args);
    let after = arg_names(with_arg(args, arg, value));
    let i = position(names, arg);
    lemma_position(names, arg);
    if i < args.len() {
        assert(names[i] == arg);
        assert(after =~= names);
    } else {
        assert(after =~= names.push(arg));
        assert(after[names.len() as int] == arg);
        assert forall|a: int, b: int| 0 <= a < after.len() && 0 <= b < after.len() && a
            != b implies after[a] != after[b] by {
            if a < names.len() && b < names.len() {
                assert(names[a] != names[b]);
            } else if a < names.len() {
                assert(names.contains(names[a]));
            } else {
                assert(names.contains(names[b]));
            }
        }
    }
}

impl L10nView {
    pub open spec fn empty() -> L10nView {
        L10nView { op: L10nOpView::Void, args: Seq::empty() }
    }

    /// The text in `langid`, as a string: none if there is no text. A
    /// translation gets the arguments filled in; a key without a translation
    /// stands for itself, as it is.
    pub open spec fn value(self, langid: Seq<char>) -> Option<Seq<char>> {
        match self.op {
            L10nOpView::Void => None,
            L10nOpView::Text(t) => Some(t),
            L10nOpView::Value(v) => Some(v),
            L10nOpView::Translated(key, table) => Some(shown(table, langid, key, self.args)),
            L10nOpView::Escaped(key, table) => Some(shown(table, langid, key, self.args)),
        }
    }

    /// The text in `langid`, as markup.
    pub open spec fn markup(self, langid: Seq<char>) -> Seq<char> {
        match self.op {
            L10nOpView::Void => Seq::empty(),
            L10nOpView::Text(t) => escaped(t),
            L10nOpView::Value(v) => v,
            L10nOpView::Translated(key, table) => escaped(shown(table, langid, key, self.args)),
            L10nOpView::Escaped(key, table) => shown(table, langid, key, self.args),
        }
    }
}

/// A text in the language of the request.
pub struct L10n {
    pub(crate) op: L10nOp,
    pub(crate) args: Vec<(String, String)>,
}

impl View for L10n {
    type V = L10nView;

    closed spec fn view(&self) -> L10nView {
        L10nView { op: self.op@, args: arg_views(self.args@) }
    }
}

impl L10n {
    /// No text.
    pub fn new() -> (r: Self)
        ensures
            r@ == L10nView::empty(),
    {
        let r = L10n { op: L10nOp::Void, args: Vec::new() };
        assert(arg_views(r.args@) == Seq::<(Seq<char>, Seq<char>)>::empty());
        r
    }

    /// The given text as markup that shows it literally in every language.
    pub fn text(text: &'static str) -> (r: Self)
        ensures
            r@ == (L10nView { op: L10nOpView::Value(escaped(text@)), args: Seq::empty() }),
    {
        let mut r = L10n::new();
        r.op = L10nOp::Value(Markup::text(text));
        r
    }

    /// The given text, shown literally in every language.
    pub fn n(text: &'static str) -> (r: Self)
        ensures
            r@ == (L10nView { op: L10nOpView::Text(text@), args: Seq::empty() }),
    {
        let mut r = L10n::new();
        r.op = L10nOp::Text(text.to_owned());
        r
    }

    /// The given markup, in every language.
    pub fn html(html: Markup) -> (r: Self)
        ensures
            r@ == (L10nView { op: L10nOpView::Value(html@), args: Seq::empty() }),
    {
        let mut r = L10n::new();
        r.op = L10nOp::Value(html);
        r
    }

    /// The text for `key` in `locales`.
    pub fn t(key: &'static str, locales: &'static Locales) -> (r: Self)
        ensures
            r@ == (L10nView { op: L10nOpView::Translated(key@, locales@), args: Seq::empty() }),
    {
        let mut r = L10n::new();
        r.op = L10nOp::Translated(key, locales);
        r
    }

    /// The markup for `key` in `locales`.
    pub fn e(key: &'static str, locales: &'static Locales) -> (r: Self)
        ensures
            r@ == (L10nView { op: L10nOpView::Escaped(key@, locales@), args: Seq::empty() }),
    {
        let mut r = L10n::new();
        r.op = L10nOp::Escaped(key, locales);
        r
    }

    pub fn alter_op(&mut self, op: L10nOp) -> (r: &mut Self)
        ensures
            r@ == (L10nView { op: op@, ..old(self)@ }),
            *final(self) == *final(r),
    {
        self.op = op;
        self
    }

    pub fn with_op(self, op: L10nOp) -> (r: Self)
        ensures
            r@ == (L10nView { op: op@, ..self@ }),
    {
        let mut s = self;
        s.alter_op(op);
        s
    }

    /// Gives the argument `arg` the value `value`.
    pub fn alter_arg(&mut self, arg: &'static str, value: String) -> (r: &mut Self)
        ensures
            r@ == (L10nView { args: with_arg(old(self)@.args, arg@, value@), ..old(self)@ }),
            *final(self) == *final(r),
    {
        let name = arg.to_owned();
        let ghost before = arg_views(self.args@);
        let mut i: usize = 0;
        while i < self.args.len() && !(self.args[i].0 == name)
            invariant
                i <= self.args@.len(),
                name@ == arg@,
                before == arg_views(self.args@),
                forall|k: int| 0 <= k < i ==> arg_names(before)[k] != arg@,
            decreases self.args@.len() - i,
        {
            i = i + 1;
        }
        proof {
            lemma_position(arg_names(before), arg@);
            if i < self.args@.len() {
                assert(arg_names(before)[i as int] == arg@);
            }
            assert(arg_views(self.args@.push((name, value))) == before.push((arg@, value@)));
            if i < self.args@.len() {
                assert(arg_views(self.args@.update(i as int, (name, value))) == before.update(
                    i as int,
                    (arg@, value@),
                ));
            }
        }
        if i < self.args.len() {
            self.args.set(i, (name, value));
        } else {
            self.args.push((name, value));
        }
        self
    }

    pub fn with_arg(self, arg: &'static str, value: String) -> (r: Self)
        ensures
            r@ == (L10nView { args: with_arg(self@.args, arg@, value@), ..self@ }),
    {
        let mut s = self;
        s.alter_arg(arg, value);
        s
    }

    /// Forgets all arguments.
    pub fn clear_args(&mut self) -> (r: &mut Self)
        ensures
            r@ == (L10nView { args: Seq::empty(), ..old(self)@ }),
            *final(self) == *final(r),
    {
        self.args = Vec::new();
        assert(arg_views(self.args@) == Seq::<(Seq<char>, Seq<char>)>::empty());
        self
    }

    pub fn op(&self) -> (r: &L10nOp)
        ensures
            r@ == self@.op,
    {
        &self.op
    }

    pub fn args(&self) -> (r: &Vec<(String, String)>)
        ensures
            arg_views(r@) == self@.args,
    {
        &self.args
    }

    /// The text in `langid`, as a string.
    pub fn using(&self, langid: &str) -> (r: Option<String>)
        ensures
            opt_view(r) == self@.value(langid@),
    {
        match &self.op {
            L10nOp::Void => None,
            L10nOp::Text(t) => Some(t.clone()),
            L10nOp::Value(v) => Some(v.duplicate().into_string()),
            L10nOp::Translated(key, table) => Some(
                table.lookup_with_args(langid, key, &self.args),
            ),
            L10nOp::Escaped(key, table) => Some(table.lookup_with_args(langid, key, &self.args)),
        }
    }

    /// The text in `langid`, as markup.
    pub fn escaped(&self, langid: &str) -> (m: Markup)
        ensures
            m@ == self@.markup(langid@),
    {
        match &self.op {
            L10nOp::Void => Markup::new(),
            L10nOp::Text(t) => Markup::text(t.as_str()),
            L10nOp::Value(v) => v.duplicate(),
            L10nOp::Translated(key, table) => {
                let text = table.lookup_with_args(langid, key, &self.args);
                Markup::text(text.as_str())
            },
            L10nOp::Escaped(key, table) => {
                let text = table.lookup_with_args(langid, key, &self.args);
                Markup::raw(text.as_str())
            },
        }
    }
}

impl ComponentTrait for L10n {
    open spec fn as_view(&self) -> ComponentView {
        ComponentView::Translate(self@)
    }

    open spec fn is_kind(c: ComponentView) -> bool {
        c is Translate
    }

    fn from_any(component: &AnyComponent) -> (r: Option<&Self>) {
        proof {
            lemma_view_of_kind(*component);
        }
        match component {
            AnyComponent::Translate(c) => Some(c),
            _ => None,
        }
    }

    fn from_any_mut(component: &mut AnyComponent) -> (r: Option<&mut Self>) {
        proof {
            lemma_view_of_kind(*component);
        }
        match component {
            AnyComponent::Translate(c) => {
                proof {
                    lemma_view_of_kind(AnyComponent::Translate(*final(c)));
                }
                Some(c)
            },
            _ => None,
        }
    }

    fn new() -> (r: Self)
        ensures
            r@ == L10nView::empty(),
    {
        L10n::new()
    }

    fn handle(&self) -> (h: Handle) {
        COMPONENT_L10N
    }

    fn weight(&self) -> (w: Weight) {
        0
    }

    fn is_renderable(&self, cx: &Context) -> (b: bool) {
        true
    }

    fn default_render<T: ThemeTrait + ?Sized>(
        &mut self,
        cx: &mut Context,
        theme: &T,
        actions: &ActionsRegistry,
    ) -> (m: Markup) {
        self.escaped(cx.langid())
    }
}

} // verus!
