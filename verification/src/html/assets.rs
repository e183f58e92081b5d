//! What a page asks the browser to load: style sheets, scripts and an icon.

use crate::html::markup::{attr, opt_view, Markup};
use crate::order::Weight;
use vstd::prelude::*;

verus! {

/// A style sheet or a script: where it is, and how early it is loaded.
pub struct AssetView {
    pub path: Seq<char>,
    pub weight: Weight,
}

/// A style sheet that a page loads.
pub struct StyleSheet {
    path: String,
    weight: Weight,
}

impl View for StyleSheet {
    type V = AssetView;

    closed spec fn view(&self) -> AssetView {
        AssetView { path: self.path@, weight: self.weight }
    }
}

/// The element that loads a style sheet.
pub open spec fn stylesheet_markup(a: AssetView) -> Seq<char> {
    "<link rel=\"stylesheet\""@ + attr("href"@, a.path) + ">"@
}

impl StyleSheet {
    /// The style sheet at `path`, with weight 0.
    pub fn at(path: &str) -> (r: Self)
        ensures
            r@ == (AssetView { path: path@, weight: 0 }),
    {
        StyleSheet { path: path.to_owned(), weight: 0 }
    }

    pub fn with_weight(self, value: Weight) -> (r: Self)
        ensures
            r@ == (AssetView { weight: value, ..self@ }),
    {
        let mut s = self;
        s.weight = value;
        s
    }

    pub fn path(&self) -> (p: &str)
        ensures
            p@ == self@.path,
    {
        self.path.as_str()
    }

    pub fn weight(&self) -> (w: Weight)
        ensures
            w == self@.weight,
    {
        self.weight
    }

    pub fn render(&self) -> (m: Markup)
        ensures
            m@ == stylesheet_markup(self@),
    {
        let mut m = Markup::raw("<link rel=\"stylesheet\"");
        m.push_attr("href", self.path.as_str());
        m.push_raw(">");
        m
    }
}

/// A script that a page loads.
pub struct JavaScript {
    path: String,
    weight: Weight,
}

impl View for JavaScript {
    type V = AssetView;

    closed spec fn view(&self) -> AssetView {
        AssetView { path: self.path@, weight: self.weight }
    }
}

/// The element that loads a script.
pub open spec fn javascript_markup(a: AssetView) -> Seq<char> {
    "<script"@ + attr("src"@, a.path) + "></script>"@
}

impl JavaScript {
    /// The script at `path`, with weight 0.
    pub fn at(path: &str) -> (r: Self)
        ensures
            r@ == (AssetView { path: path@, weight: 0 }),
    {
        JavaScript { path: path.to_owned(), weight: 0 }
    }

    pub fn with_weight(self, value: Weight) -> (r: Self)
        ensures
            r@ == (AssetView { weight: value, ..self@ }),
    {
        let mut s = self;
        s.weight = value;
        s
    }

    pub fn path(&self) -> (p: &str)
        ensures
            p@ == self@.path,
    {
        self.path.as_str()
    }

    pub fn weight(&self) -> (w: Weight)
        ensures
            w == self@.weight,
    {
        self.weight
    }

    pub fn render(&self) -> (m: Markup)
        ensures
            m@ == javascript_markup(self@),
    {
        let mut m = Markup::raw("<script");
        m.push_attr("src", self.path.as_str());
        m.push_raw("></script>");
        m
    }
}

/// The icon of a page.
pub struct Favicon {
    icon: Option<String>,
}

impl View for Favicon {
    type V = Option<Seq<char>>;

    closed spec fn view(&self) -> Option<Seq<char>> {
        opt_view(self.icon)
    }
}

/// The element that names the icon, or nothing when there is none.
pub open spec fn favicon_markup(icon: Option<Seq<char>>) -> Seq<char> {
    match icon {
        Some(path) => "<link rel=\"icon\""@ + attr("href"@, path) + ">"@,
        None => Seq::empty(),
    }
}

impl Favicon {
    pub fn new() -> (r: Self)
        ensures
            r@ is None,
    {
        Favicon { icon: None }
    }

    pub fn with_icon(self, path: &str) -> (r: Self)
        ensures
            r@ == Some(path@),
    {
        Favicon { icon: Some(path.to_owned()) }
    }

    pub fn render(&self) -> (m: Markup)
        ensures
            m@ == favicon_markup(self@),
    {
        match &self.icon {
            Some(path) => {
                let mut m = Markup::raw("<link rel=\"icon\"");
                m.push_attr("href", path.as_str());
                m.push_raw(">");
                m
            },
            None => Markup::new(),
        }
    }
}

} // verus!
