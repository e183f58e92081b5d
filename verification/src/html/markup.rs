//! Markup values: text that is already safe to send to a browser, and the
//! pieces (escaped text, attributes, tags) it is assembled from.

use vstd::prelude::*;

verus! {

/// How one character of text is written in markup.
pub open spec fn escaped_char(c: char) -> Seq<char> {
    if c == '&' {
        "&amp;"@
    } else if c == '<' {
        "&lt;"@
    } else if c == '>' {
        "&gt;"@
    } else if c == '"' {
        "&quot;"@
    } else {
        seq![c]
    }
}

/// Text with `&`, `<`, `>` and `"` replaced by their entities.
pub open spec fn escaped(s: Seq<char>) -> Seq<char>
    decreases s.len(),
{
    if s.len() == 0 {
        Seq::empty()
    } else {
        escaped(s.drop_last()) + escaped_char(s.last())
    }
}

/// ` name="value"`, with the value escaped.
pub open spec fn attr(name: Seq<char>, value: Seq<char>) -> Seq<char> {
    " "@ + name + "=\""@ + escaped(value) + "\""@
}

/// An attribute that is left out when it has no value.
pub open spec fn opt_attr(name: Seq<char>, value: Option<Seq<char>>) -> Seq<char> {
    match value {
        Some(v) => attr(name, v),
        None => Seq::empty(),
    }
}

/// The view of an optional string.
pub open spec fn opt_view(o: Option<String>) -> Option<Seq<char>> {
    match o {
        Some(s) => Some(s@),
        None => None,
    }
}

/// Calls maud's `Render::render` on a string slice and takes the string out
/// of the result. Trusted: maud writes `&amp;`, `&lt;`, `&gt;` and `&quot;`
/// for the four special characters and copies every other character.
#[verifier::external_body]
pub(crate) fn escape(text: &str) -> (out: String)
    ensures
        out@ == escaped(text@),
{
    maud::Render::render(text).into_string()
}

/// A block of markup: a string that needs no further escaping.
pub struct Markup {
    html: String,
}

impl View for Markup {
    type V = Seq<char>;

    closed spec fn view(&self) -> Seq<char> {
        self.html@
    }
}

impl Markup {
    /// The empty markup.
    pub fn new() -> (m: Self)
        ensures
            m@ == Seq::<char>::empty(),
    {
        Markup { html: String::new() }
    }

    /// Markup that holds `html` as it is: the caller vouches for it.
    pub fn raw(html: &str) -> (m: Self)
        ensures
            m@ == html@,
    {
        Markup { html: html.to_owned() }
    }

    /// Markup that shows `text` literally.
    pub fn text(text: &str) -> (m: Self)
        ensures
            m@ == escaped(text@),
    {
        Markup { html: escape(text) }
    }

    pub fn is_empty(&self) -> (b: bool)
        ensures
            b == (self@.len() == 0),
    {
        self.html.as_str().unicode_len() == 0
    }

    pub fn as_str(&self) -> (s: &str)
        ensures
            s@ == self@,
    {
        self.html.as_str()
    }

    pub fn into_string(self) -> (s: String)
        ensures
            s@ == self@,
    {
        self.html
    }

    pub fn duplicate(&self) -> (m: Self)
        ensures
            m@ == self@,
    {
        Markup { html: self.html.clone() }
    }

    /// Appends markup.
    pub fn push(&mut self, other: &Markup)
        ensures
            final(self)@ == old(self)@ + other@,
    {
        self.html.append(other.html.as_str());
    }

    /// Appends a piece that is markup already.
    pub fn push_raw(&mut self, html: &str)
        ensures
            final(self)@ == old(self)@ + html@,
    {
        self.html.append(html);
    }

    /// Appends text, escaped.
    pub fn push_text(&mut self, text: &str)
        ensures
            final(self)@ == old(self)@ + escaped(text@),
    {
        let e = escape(text);
        self.html.append(e.as_str());
    }

    /// Appends ` name="value"`.
    pub fn push_attr(&mut self, name: &str, value: &str)
        ensures
            final(self)@ == old(self)@ + attr(name@, value@),
    {
        let ghost start = self@;
        self.html.append(" ");
        self.html.append(name);
        self.html.append("=\"");
        let e = escape(value);
        self.html.append(e.as_str());
        self.html.append("\"");
        assert(self@ == start + attr(name@, value@));
    }

    /// Appends the attribute if it has a value.
    pub fn push_opt_attr(&mut self, name: &str, value: &Option<String>)
        ensures
            final(self)@ == old(self)@ + opt_attr(name@, opt_view(*value)),
    {
        match value {
            Some(v) => {
                self.push_attr(name, v.as_str());
            },
            None => {
                assert(self@ + Seq::<char>::empty() == self@);
            },
        }
    }
}

} // verus!
