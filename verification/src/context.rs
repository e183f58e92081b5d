//! The state of one request while its page is rendered: the language, the
//! theme, and the assets and metadata that the components asked for.

use crate::html::assets::{javascript_markup, stylesheet_markup, AssetView, JavaScript, StyleSheet};
use crate::handle::Handle;
use crate::html::markup::{attr, Markup};
use crate::module::graph::THEME_BASIC;
use crate::order::{by_weight, in_turns, indices, lemma_in_turns_step, order_by_weight, Weight};
use vstd::prelude::*;

verus! {

/// A change to the context.
pub enum ContextOp {
    /// Render in this language from now on.
    LangId(String),
    /// Render with the theme that has this handle from now on.
    Theme(Handle),
    /// Load this style sheet, unless one with the same path is loaded already.
    AddStyleSheet(StyleSheet),
    /// Load this script, unless one with the same path is loaded already.
    AddJavaScript(JavaScript),
    /// Add a `meta` element with this name and content.
    AddMetadata(String, String),
}

/// A `ContextOp` as a mathematical value.
pub enum ContextOpView {
    LangId(Seq<char>),
    Theme(Handle),
    AddStyleSheet(AssetView),
    AddJavaScript(AssetView),
    AddMetadata(Seq<char>, Seq<char>),
}

impl View for ContextOp {
    type V = ContextOpView;

    open spec fn view(&self) -> ContextOpView {
        match self {
            ContextOp::LangId(l) => ContextOpView::LangId(l@),
            ContextOp::Theme(h) => ContextOpView::Theme(*h),
            ContextOp::AddStyleSheet(s) => ContextOpView::AddStyleSheet(s@),
            ContextOp::AddJavaScript(s) => ContextOpView::AddJavaScript(s@),
            ContextOp::AddMetadata(n, c) => ContextOpView::AddMetadata(n@, c@),
        }
    }
}

/// A `Context` as a mathematical value.
pub struct ContextView {
    pub langid: Seq<char>,
    pub theme: Handle,
    pub stylesheets: Seq<AssetView>,
    pub javascripts: Seq<AssetView>,
    pub metadata: Seq<(Seq<char>, Seq<char>)>,
}

/// Whether an asset with this path is among `assets`.
pub open spec fn has_path(assets: Seq<AssetView>, path: Seq<char>) -> bool {
    exists|i: int| 0 <= i < assets.len() && (#[trigger] assets[i]).path == path
}

/// `assets` with `a` at the end, unless its path is there already.
pub open spec fn with_asset(assets: Seq<AssetView>, a: AssetView) -> Seq<AssetView> {
    if has_path(assets, a.path) {
        assets
    } else {
        assets.push(a)
    }
}

pub open spec fn weights_of(assets: Seq<AssetView>) -> Seq<Weight> {
    assets.map_values(|a: AssetView| a.weight)
}

/// The `meta` element for one entry of the metadata.
pub open spec fn meta_markup(entry: (Seq<char>, Seq<char>)) -> Seq<char> {
    "<meta"@ + attr("name"@, entry.0) + attr("content"@, entry.1) + ">"@
}

/// The `meta` elements of the first `n` entries.
pub open spec fn metadata_markup(metadata: Seq<(Seq<char>, Seq<char>)>, n: int) -> Seq<char>
    decreases n,
{
    if n <= 0 || n > metadata.len() {
        Seq::empty()
    } else {
        metadata_markup(metadata, n - 1) + meta_markup(metadata[n - 1])
    }
}

impl ContextView {
    pub open spec fn altered(self, op: ContextOpView) -> ContextView {
        match op {
            ContextOpView::LangId(l) => ContextView { langid: l, ..self },
            ContextOpView::Theme(h) => ContextView { theme: h, ..self },
            ContextOpView::AddStyleSheet(a) => ContextView {
                stylesheets: with_asset(self.stylesheets, a),
                ..self
            },
            ContextOpView::AddJavaScript(a) => ContextView {
                javascripts: with_asset(self.javascripts, a),
                ..self
            },
            ContextOpView::AddMetadata(n, c) => ContextView {
                metadata: self.metadata.push((n, c)),
                ..self
            },
        }
    }

    /// What the context contributes to the head of the page: the metadata as
    /// given, then the style sheets and the scripts, each by weight.
    pub open spec fn head_markup(self) -> Seq<char> {
        metadata_markup(self.metadata, self.metadata.len() as int) + by_weight(
            self.stylesheets.map_values(|a: AssetView| stylesheet_markup(a)),
            weights_of(self.stylesheets),
        ) + by_weight(
            self.javascripts.map_values(|a: AssetView| javascript_markup(a)),
            weights_of(self.javascripts),
        )
    }
}

/// The state of a request while its page is rendered.
pub struct Context {
    langid: String,
    theme: Handle,
    stylesheets: Vec<StyleSheet>,
    javascripts: Vec<JavaScript>,
    metadata: Vec<(String, String)>,
}

impl View for Context {
    type V = ContextView;

    closed spec fn view(&self) -> ContextView {
        ContextView {
            langid: self.langid@,
            theme: self.theme,
            stylesheets: self.stylesheets@.map_values(|s: StyleSheet| s@),
            javascripts: self.javascripts@.map_values(|s: JavaScript| s@),
            metadata: self.metadata@.map_values(|e: (String, String)| (e.0@, e.1@)),
        }
    }
}

impl Context {
    /// A context for `langid` and the basic theme, with nothing collected yet.
    pub fn new(langid: &str) -> (cx: Self)
        ensures
            cx@ == (ContextView {
                langid: langid@,
                theme: THEME_BASIC,
                stylesheets: Seq::empty(),
                javascripts: Seq::empty(),
                metadata: Seq::empty(),
            }),
    {
        let cx = Context {
            langid: langid.to_owned(),
            theme: THEME_BASIC,
            stylesheets: Vec::new(),
            javascripts: Vec::new(),
            metadata: Vec::new(),
        };
        assert(cx@.stylesheets == Seq::<AssetView>::empty());
        assert(cx@.javascripts == Seq::<AssetView>::empty());
        assert(cx@.metadata == Seq::<(Seq<char>, Seq<char>)>::empty());
        cx
    }

    pub fn alter(&mut self, op: ContextOp) -> (r: &mut Self)
        ensures
            r@ == old(self)@.altered(op@),
            *final(self) == *final(r),
    {
        match op {
            ContextOp::LangId(l) => {
                self.langid = l;
            },
            ContextOp::Theme(h) => {
                self.theme = h;
            },
            ContextOp::AddStyleSheet(s) => {
                let ghost before = self@.stylesheets;
                let mut found = false;
                let mut i: usize = 0;
                while i < self.stylesheets.len()
                    invariant
                        i <= self.stylesheets@.len(),
                        before == self.stylesheets@.map_values(|s: StyleSheet| s@),
                        found == exists|k: int|
                            0 <= k < i && (#[trigger] before[k]).path == s@.path,
                    decreases self.stylesheets@.len() - i,
                {
                    if self.stylesheets[i].path().to_owned() == s.path().to_owned() {
                        assert(before[i as int].path == s@.path);
                        found = true;
                    }
                    i = i + 1;
                }
                if !found {
                    assert(self.stylesheets@.push(s).map_values(|s: StyleSheet| s@) == before.push(
                        s@,
                    ));
                    self.stylesheets.push(s);
                }
            },
            ContextOp::AddJavaScript(s) => {
                let ghost before = self@.javascripts;
                let mut found = false;
                let mut i: usize = 0;
                while i < self.javascripts.len()
                    invariant
                        i <= self.javascripts@.len(),
                        before == self.javascripts@.map_values(|s: JavaScript| s@),
                        found == exists|k: int|
                            0 <= k < i && (#[trigger] before[k]).path == s@.path,
                    decreases self.javascripts@.len() - i,
                {
                    if self.javascripts[i].path().to_owned() == s.path().to_owned() {
                        assert(before[i as int].path == s@.path);
                        found = true;
                    }
                    i = i + 1;
                }
                if !found {
                    assert(self.javascripts@.push(s).map_values(|s: JavaScript| s@) == before.push(
                        s@,
                    ));
                    self.javascripts.push(s);
                }
            },
            ContextOp::AddMetadata(n, c) => {
                assert(self.metadata@.push((n, c)).map_values(|e: (String, String)| (e.0@, e.1@))
                    == self@.metadata.push((n@, c@)));
                self.metadata.push((n, c));
            },
        }
        self
    }

    /// The language in which the page is rendered.
    pub fn langid(&self) -> (l: &str)
        ensures
            l@ == self@.langid,
    {
        self.langid.as_str()
    }

    /// The handle of the theme with which the page is rendered.
    pub fn theme(&self) -> (h: Handle)
        ensures
            h == self@.theme,
    {
        self.theme
    }

    /// The elements for the head of the page.
    pub fn render(&self) -> (m: Markup)
        ensures
            m@ == self@.head_markup(),
    {
        let mut m = Markup::new();
        let mut n: usize = 0;
        while n < self.metadata.len()
            invariant
                n <= self.metadata@.len(),
                m@ == metadata_markup(self@.metadata, n as int),
            decreases self.metadata@.len() - n,
        {
            let ghost start = m@;
            m.push_raw("<meta");
            m.push_attr("name", self.metadata[n].0.as_str());
            m.push_attr("content", self.metadata[n].1.as_str());
            m.push_raw(">");
            assert(m@ == start + meta_markup(self@.metadata[n as int]));
            n = n + 1;
        }
        let ghost meta = m@;

        let mut weights: Vec<Weight> = Vec::new();
        let mut i: usize = 0;
        while i < self.stylesheets.len()
            invariant
                i <= self.stylesheets@.len(),
                weights@ == weights_of(self@.stylesheets).take(i as int),
            decreases self.stylesheets@.len() - i,
        {
            weights.push(self.stylesheets[i].weight());
            i = i + 1;
        }
        assert(weights@ == weights_of(self@.stylesheets));
        let order = order_by_weight(&weights);
        let ghost pieces = self@.stylesheets.map_values(|a: AssetView| stylesheet_markup(a));
        let mut k: usize = 0;
        assert(indices(order@).take(0) == Seq::<int>::empty());
        while k < order.len()
            invariant
                k <= order@.len(),
                order@.len() == self.stylesheets@.len(),
                forall|j: int|
                    0 <= j < order@.len() ==> (#[trigger] order@[j]) < self.stylesheets@.len(),
                pieces == self@.stylesheets.map_values(|a: AssetView| stylesheet_markup(a)),
                m@ == meta + in_turns(pieces, indices(order@).take(k as int)),
            decreases order@.len() - k,
        {
            let piece = self.stylesheets[order[k]].render();
            proof {
                lemma_in_turns_step(pieces, indices(order@), k as int);
            }
            m.push(&piece);
            k = k + 1;
        }
        assert(indices(order@).take(order@.len() as int) == indices(order@));
        let ghost styles = m@;

        let mut weights: Vec<Weight> = Vec::new();
        let mut i: usize = 0;
        while i < self.javascripts.len()
            invariant
                i <= self.javascripts@.len(),
                weights@ == weights_of(self@.javascripts).take(i as int),
            decreases self.javascripts@.len() - i,
        {
            weights.push(self.javascripts[i].weight());
            i = i + 1;
        }
        assert(weights@ == weights_of(self@.javascripts));
        let order = order_by_weight(&weights);
        let ghost pieces = self@.javascripts.map_values(|a: AssetView| javascript_markup(a));
        let mut k: usize = 0;
        assert(indices(order@).take(0) == Seq::<int>::empty());
        while k < order.len()
            invariant
                k <= order@.len(),
                order@.len() == self.javascripts@.len(),
                forall|j: int|
                    0 <= j < order@.len() ==> (#[trigger] order@[j]) < self.javascripts@.len(),
                pieces == self@.javascripts.map_values(|a: AssetView| javascript_markup(a)),
                m@ == styles + in_turns(pieces, indices(order@).take(k as int)),
            decreases order@.len() - k,
        {
            let piece = self.javascripts[order[k]].render();
            proof {
                lemma_in_turns_step(pieces, indices(order@), k as int);
            }
            m.push(&piece);
            k = k + 1;
        }
        assert(indices(order@).take(order@.len() as int) == indices(order@));
        m
    }
}

} // verus!
