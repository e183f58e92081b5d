//! Tables of translated texts, looked up by language and key.

use crate::html::markup::opt_view;
use crate::text::{chars_of, push_char, string_of};
use vstd::prelude::*;

verus! {

/// One translated text.
pub struct EntryView {
    pub langid: Seq<char>,
    pub key: Seq<char>,
    pub text: Seq<char>,
}

/// The text of the first of the first `n` entries that is for `langid` and `key`.
pub open spec fn found(entries: Seq<EntryView>, langid: Seq<char>, key: Seq<char>, n: int)
    -> Option<Seq<char>>
    decreases n,
{
    if n <= 0 || n > entries.len() {
        None
    } else {
        match found(entries, langid, key, n - 1) {
            Some(text) => Some(text),
            None => if entries[n - 1].langid == langid && entries[n - 1].key == key {
                Some(entries[n - 1].text)
            } else {
                None
            },
        }
    }
}

/// The text for `key` in `langid`, if the table has one.
pub open spec fn translation(entries: Seq<EntryView>, langid: Seq<char>, key: Seq<char>) -> Option<
    Seq<char>,
> {
    found(entries, langid, key, entries.len() as int)
}

/// The text to show for `key`: its translation, or the key itself when the
/// table has none for this language.
pub open spec fn translated(entries: Seq<EntryView>, langid: Seq<char>, key: Seq<char>) -> Seq<
    char,
> {
    match translation(entries, langid, key) {
        Some(text) => text,
        None => key,
    }
}

struct Entry {
    langid: String,
    key: String,
    text: String,
}

/// A table of translated texts.
pub struct Locales {
    entries: Vec<Entry>,
}

impl View for Locales {
    type V = Seq<EntryView>;

    closed spec fn view(&self) -> Seq<EntryView> {
        self.entries@.map_values(
            |e: Entry| EntryView { langid: e.langid@, key: e.key@, text: e.text@ },
        )
    }
}

impl Locales {
    pub fn new() -> (r: Self)
        ensures
            r@ == Seq::<EntryView>::empty(),
    {
        let r = Locales { entries: Vec::new() };
        assert(r@ == Seq::<EntryView>::empty());
        r
    }

    /// Adds a text. An earlier text for the same language and key stays in force.
    pub fn add(&mut self, langid: &str, key: &str, text: &str) -> (r: &mut Self)
        ensures
            r@ == old(self)@.push(EntryView { langid: langid@, key: key@, text: text@ }),
            *final(self) == *final(r),
    {
        let e = Entry { langid: langid.to_owned(), key: key.to_owned(), text: text.to_owned() };
        assert(self.entries@.push(e).map_values(
            |e: Entry| EntryView { langid: e.langid@, key: e.key@, text: e.text@ },
        ) == self@.push(EntryView { langid: langid@, key: key@, text: text@ }));
        self.entries.push(e);
        self
    }

    /// Adds a text.
    pub fn with(self, langid: &str, key: &str, text: &str) -> (r: Self)
        ensures
            r@ == self@.push(EntryView { langid: langid@, key: key@, text: text@ }),
    {
        let mut t = self;
        t.add(langid, key, text);
        t
    }

    /// The text for `key` in `langid`.
    pub fn lookup(&self, langid: &str, key: &str) -> (r: Option<String>)
        ensures
            opt_view(r) == translation(self@, langid@, key@),
    {
        let l = langid.to_owned();
        let k = key.to_owned();
        let mut i: usize = 0;
        while i < self.entries.len()
            invariant
                i <= self.entries@.len(),
                l@ == langid@,
                k@ == key@,
                found(self@, langid@, key@, i as int) is None,
            decreases self.entries@.len() - i,
        {
            if self.entries[i].langid == l && self.entries[i].key == k {
                let text = self.entries[i].text.clone();
                proof {
                    lemma_found_stays(self@, langid@, key@, i + 1, self@.len() as int);
                }
                return Some(text);
            }
            i = i + 1;
        }
        None
    }

    /// The text to show for `key` in `langid`: the key itself if nothing is found.
    pub fn lookup_or_key(&self, langid: &str, key: &str) -> (r: String)
        ensures
            r@ == translated(self@, langid@, key@),
    {
        match self.lookup(langid, key) {
            Some(text) => text,
            None => key.to_owned(),
        }
    }
}

/// What was found among the first `n` entries is what is found among the first `m`.
pub proof fn lemma_found_stays(
    entries: Seq<EntryView>,
    langid: Seq<char>,
    key: Seq<char>,
    n: int,
    m: int,
)
    requires
        0 <= n <= m <= entries.len(),
        found(entries, langid, key, n) is Some,
    ensures
        found(entries, langid, key, m) == found(entries, langid, key, n),
    decreases m - n,
{
    if n < m {
        lemma_found_stays(entries, langid, key, n, m - 1);
    }
}

/// The names and values of arguments, without the machine's strings.
pub open spec fn arg_views(args: Seq<(String, String)>) -> Seq<(Seq<char>, Seq<char>)> {
    args.map_values(|a: (String, String)| (a.0@, a.1@))
}

/// The value of the first of the first `n` arguments that is called `name`.
pub open spec fn arg_value(args: Seq<(Seq<char>, Seq<char>)>, name: Seq<char>, n: int) -> Option<
    Seq<char>,
>
    decreases n,
{
    if n <= 0 || n > args.len() {
        None
    } else {
        match arg_value(args, name, n - 1) {
            Some(v) => Some(v),
            None => if args[n - 1].0 == name {
                Some(args[n - 1].1)
            } else {
                None
            },
        }
    }
}

/// The index of the first `}` at or behind `j`, or the length of the text.
pub open spec fn closing(text: Seq<char>, j: int) -> int
    decreases text.len() - j,
{
    if 0 <= j < text.len() && text[j] != '}' {
        closing(text, j + 1)
    } else {
        j
    }
}

/// The text from `i` on with every `{$name}` replaced by the value of the
/// argument `name`. What names no argument stays as it is written.
pub open spec fn filled_from(text: Seq<char>, i: int, args: Seq<(Seq<char>, Seq<char>)>) -> Seq<
    char,
>
    decreases text.len() - i,
{
    if i < 0 || i >= text.len() {
        Seq::empty()
    } else if text[i] == '{' && i + 1 < text.len() && text[i + 1] == '$' {
        let j = closing(text, i + 2);
        if i + 2 <= j < text.len() {
            (match arg_value(args, text.subrange(i + 2, j), args.len() as int) {
                Some(v) => v,
                None => text.subrange(i, j + 1),
            }) + filled_from(text, j + 1, args)
        } else {
            text.subrange(i, text.len() as int)
        }
    } else {
        seq![text[i]] + filled_from(text, i + 1, args)
    }
}

/// The text with its arguments filled in.
pub open spec fn filled(text: Seq<char>, args: Seq<(Seq<char>, Seq<char>)>) -> Seq<char> {
    filled_from(text, 0, args)
}

/// The value of the argument `name`.
pub fn find_arg<'a>(args: &'a Vec<(String, String)>, name: &String) -> (r: Option<&'a String>)
    ensures
        match r {
            Some(v) => arg_value(arg_views(args@), name@, args@.len() as int) == Some(v@),
            None => arg_value(arg_views(args@), name@, args@.len() as int) is None,
        },
{
    let mut i: usize = 0;
    while i < args.len()
        invariant
            i <= args@.len(),
            arg_value(arg_views(args@), name@, i as int) is None,
        decreases args@.len() - i,
    {
        if args[i].0 == *name {
            proof {
                lemma_arg_value_stays(arg_views(args@), name@, i + 1, args@.len() as int);
            }
            return Some(&args[i].1);
        }
        i = i + 1;
    }
    None
}

pub proof fn lemma_arg_value_stays(
    args: Seq<(Seq<char>, Seq<char>)>,
    name: Seq<char>,
    n: int,
    m: int,
)
    requires
        0 <= n <= m <= args.len(),
        arg_value(args, name, n) is Some,
    ensures
        arg_value(args, name, m) == arg_value(args, name, n),
    decreases m - n,
{
    if n < m {
        lemma_arg_value_stays(args, name, n, m - 1);
    }
}

/// Fills the arguments into `text`.
pub fn fill(text: &str, args: &Vec<(String, String)>) -> (out: String)
    ensures
        out@ == filled(text@, arg_views(args@)),
{
    let v = chars_of(text);
    let n: usize = v.len();
    let ghost a = arg_views(args@);
    let mut out = String::new();
    let mut i: usize = 0;
    assert(out@ + filled_from(v@, 0, a) == filled_from(v@, 0, a));
    while i < n
        invariant
            i <= n,
            n == v@.len(),
            a == arg_views(args@),
            out@ + filled_from(v@, i as int, a) == filled_from(v@, 0, a),
        decreases n - i,
    {
        let ghost before = out@;
        if v[i] == '{' && i + 1 < n && v[i + 1] == '$' {
            let mut j: usize = i + 2;
            while j < n && v[j] != '}'
                invariant
                    i + 2 <= j <= n,
                    n == v@.len(),
                    closing(v@, j as int) == closing(v@, i + 2),
                decreases n - j,
            {
                j = j + 1;
            }
            if j < n {
                let name = string_of(&v, i + 2, j);
                match find_arg(args, &name) {
                    Some(value) => {
                        out.append(value.as_str());
                    },
                    None => {
                        let kept = string_of(&v, i, j + 1);
                        out.append(kept.as_str());
                    },
                }
                proof {
                    let piece = match arg_value(a, v@.subrange(i + 2, j as int), a.len() as int) {
                        Some(x) => x,
                        None => v@.subrange(i as int, j + 1),
                    };
                    assert(out@ == before + piece);
                    assert(before + (piece + filled_from(v@, j + 1, a)) == out@ + filled_from(
                        v@,
                        j + 1,
                        a,
                    ));
                }
                i = j + 1;
            } else {
                let rest = string_of(&v, i, n);
                out.append(rest.as_str());
                proof {
                    assert(filled_from(v@, n as int, a) == Seq::<char>::empty());
                    assert(out@ + Seq::<char>::empty() == out@);
                }
                i = n;
            }
        } else {
            push_char(&mut out, v[i]);
            proof {
                assert(before + (seq![v@[i as int]] + filled_from(v@, i + 1, a)) == before.push(
                    v@[i as int],
                ) + filled_from(v@, i + 1, a));
            }
            i = i + 1;
        }
    }
    assert(out@ + Seq::<char>::empty() == out@);
    out
}

/// The text to show for `key` with `args`: its translation with the
/// arguments filled in, or, when the table has none for this language, the
/// key as it is, with nothing filled in.
pub open spec fn shown(
    entries: Seq<EntryView>,
    langid: Seq<char>,
    key: Seq<char>,
    args: Seq<(Seq<char>, Seq<char>)>,
) -> Seq<char> {
    match translation(entries, langid, key) {
        Some(text) => filled(text, args),
        None => key,
    }
}

impl Locales {
    /// The text to show for `key` in `langid`: the translation with `args`
    /// filled in, or the key as it is if nothing is found.
    pub fn lookup_with_args(&self, langid: &str, key: &str, args: &Vec<(String, String)>) -> (r:
        String)
        ensures
            r@ == shown(self@, langid@, key@, arg_views(args@)),
    {
        match self.lookup(langid, key) {
            Some(text) => fill(text.as_str(), args),
            None => key.to_owned(),
        }
    }
}

} // verus!
