//! Class lists of an element: a default part that a theme may swap, and the
//! classes added on top of it.

use crate::html::markup::opt_view;
use crate::text::{join_words, joined, lemma_views_push, split_words, views, words};
use vstd::prelude::*;

verus! {

/// What `Classes::alter_value` does with the words it is given.
pub enum ClassesOp {
    /// Append the words that are not among the added classes yet.
    Add,
    /// Take the words out of the added classes.
    Remove,
    /// Take the words of the held string out, then add the given ones.
    Replace(String),
    /// Forget the added classes, then add the given words.
    Reset,
    /// Make the given words the default classes.
    SetDefault,
}

/// A `ClassesOp` without the machine's strings.
pub enum ClassesOpView {
    Add,
    Remove,
    Replace(Seq<char>),
    Reset,
    SetDefault,
}

impl View for ClassesOp {
    type V = ClassesOpView;

    open spec fn view(&self) -> ClassesOpView {
        match self {
            ClassesOp::Add => ClassesOpView::Add,
            ClassesOp::Remove => ClassesOpView::Remove,
            ClassesOp::Replace(old) => ClassesOpView::Replace(old@),
            ClassesOp::Reset => ClassesOpView::Reset,
            ClassesOp::SetDefault => ClassesOpView::SetDefault,
        }
    }
}

impl ClassesOp {
    pub fn duplicate(&self) -> (r: Self)
        ensures
            r@ == self@,
    {
        match self {
            ClassesOp::Add => ClassesOp::Add,
            ClassesOp::Remove => ClassesOp::Remove,
            ClassesOp::Replace(old) => ClassesOp::Replace(old.clone()),
            ClassesOp::Reset => ClassesOp::Reset,
            ClassesOp::SetDefault => ClassesOp::SetDefault,
        }
    }
}

/// `list` followed by the words of `ws` that it lacks, each once.
pub open spec fn include_all(list: Seq<Seq<char>>, ws: Seq<Seq<char>>) -> Seq<Seq<char>>
    decreases ws.len(),
{
    if ws.len() == 0 {
        list
    } else {
        let sofar = include_all(list, ws.drop_last());
        if sofar.contains(ws.last()) {
            sofar
        } else {
            sofar.push(ws.last())
        }
    }
}

/// `list` without the words that occur in `ws`.
pub open spec fn exclude_all(list: Seq<Seq<char>>, ws: Seq<Seq<char>>) -> Seq<Seq<char>>
    decreases list.len(),
{
    if list.len() == 0 {
        list
    } else {
        let sofar = exclude_all(list.drop_last(), ws);
        if ws.contains(list.last()) {
            sofar
        } else {
            sofar.push(list.last())
        }
    }
}

/// A `Classes` as a mathematical value.
pub struct ClassesView {
    pub default: Seq<Seq<char>>,
    pub added: Seq<Seq<char>>,
}

impl ClassesView {
    pub open spec fn empty() -> ClassesView {
        ClassesView { default: Seq::empty(), added: Seq::empty() }
    }

    /// The class list after `op` was applied with the words of `classes`.
    pub open spec fn altered(self, op: ClassesOpView, classes: Seq<char>) -> ClassesView {
        let ws = words(classes);
        match op {
            ClassesOpView::Add => ClassesView { added: include_all(self.added, ws), ..self },
            ClassesOpView::Remove => ClassesView { added: exclude_all(self.added, ws), ..self },
            ClassesOpView::Replace(old) => ClassesView {
                added: include_all(exclude_all(self.added, words(old)), ws),
                ..self
            },
            ClassesOpView::Reset => ClassesView { added: include_all(Seq::empty(), ws), ..self },
            ClassesOpView::SetDefault => ClassesView { default: ws, ..self },
        }
    }

    /// The value of the `class` attribute: none when there is no class at all.
    pub open spec fn value(self) -> Option<Seq<char>> {
        if self.default.len() + self.added.len() == 0 {
            None
        } else {
            Some(joined(self.default + self.added))
        }
    }

    pub open spec fn has(self, class: Seq<char>) -> bool {
        self.default.contains(class) || self.added.contains(class)
    }
}

/// The classes of an element.
pub struct Classes {
    default: Vec<String>,
    added: Vec<String>,
}

impl View for Classes {
    type V = ClassesView;

    closed spec fn view(&self) -> ClassesView {
        ClassesView { default: views(self.default@), added: views(self.added@) }
    }
}

/// Whether `w` is one of `list`.
pub fn has_word(list: &Vec<String>, w: &String) -> (b: bool)
    ensures
        b == views(list@).contains(w@),
{
    let mut i: usize = 0;
    while i < list.len()
        invariant
            i <= list@.len(),
            forall|k: int| 0 <= k < i ==> views(list@)[k] != w@,
        decreases list@.len() - i,
    {
        if list[i] == *w {
            assert(views(list@)[i as int] == w@);
            return true;
        }
        i = i + 1;
    }
    false
}

fn append_missing(list: &mut Vec<String>, ws: &Vec<String>)
    ensures
        views(final(list)@) == include_all(views(old(list)@), views(ws@)),
{
    let mut i: usize = 0;
    assert(views(ws@).take(0) == Seq::<Seq<char>>::empty());
    while i < ws.len()
        invariant
            i <= ws@.len(),
            views(list@) == include_all(views(old(list)@), views(ws@).take(i as int)),
        decreases ws@.len() - i,
    {
        proof {
            assert(views(ws@).take(i + 1).drop_last() == views(ws@).take(i as int));
            assert(views(ws@).take(i + 1).last() == ws@[i as int]@);
        }
        if !has_word(list, &ws[i]) {
            let w = ws[i].clone();
            assert(views(list@.push(w)) == views(list@).push(w@));
            list.push(w);
        }
        i = i + 1;
    }
    assert(views(ws@).take(ws@.len() as int) == views(ws@));
}

fn keep_others(list: &Vec<String>, ws: &Vec<String>) -> (out: Vec<String>)
    ensures
        views(out@) == exclude_all(views(list@), views(ws@)),
{
    let mut out: Vec<String> = Vec::new();
    let mut i: usize = 0;
    assert(views(list@).take(0) == Seq::<Seq<char>>::empty());
    assert(views(out@) == Seq::<Seq<char>>::empty());
    while i < list.len()
        invariant
            i <= list@.len(),
            views(out@) == exclude_all(views(list@).take(i as int), views(ws@)),
        decreases list@.len() - i,
    {
        proof {
            assert(views(list@).take(i + 1).drop_last() == views(list@).take(i as int));
            assert(views(list@).take(i + 1).last() == list@[i as int]@);
        }
        if !has_word(ws, &list[i]) {
            let w = list[i].clone();
            assert(views(out@.push(w)) == views(out@).push(w@));
            out.push(w);
        }
        i = i + 1;
    }
    assert(views(list@).take(list@.len() as int) == views(list@));
    out
}

impl Classes {
    /// No classes at all.
    pub fn new() -> (c: Self)
        ensures
            c@ == ClassesView::empty(),
    {
        let c = Classes { default: Vec::new(), added: Vec::new() };
        assert(views(c.default@) == Seq::<Seq<char>>::empty());
        assert(views(c.added@) == Seq::<Seq<char>>::empty());
        c
    }

    /// The words of `classes` as default classes, nothing added.
    pub fn new_with_default(classes: &str) -> (c: Self)
        ensures
            c@ == ClassesView::empty().altered(ClassesOpView::SetDefault, classes@),
    {
        let mut c = Classes::new();
        c.alter_value(ClassesOp::SetDefault, classes);
        c
    }

    /// Applies `op` with the words of `classes`.
    pub fn alter_value(&mut self, op: ClassesOp, classes: &str) -> (r: &mut Self)
        ensures
            r@ == old(self)@.altered(op@, classes@),
            *final(self) == *final(r),
    {
        let ws = split_words(classes);
        match op {
            ClassesOp::Add => {
                append_missing(&mut self.added, &ws);
            },
            ClassesOp::Remove => {
                self.added = keep_others(&self.added, &ws);
            },
            ClassesOp::Replace(old) => {
                let olds = split_words(old.as_str());
                self.added = keep_others(&self.added, &olds);
                append_missing(&mut self.added, &ws);
            },
            ClassesOp::Reset => {
                self.added = Vec::new();
                assert(views(self.added@) == Seq::<Seq<char>>::empty());
                append_missing(&mut self.added, &ws);
            },
            ClassesOp::SetDefault => {
                self.default = ws;
            },
        }
        self
    }

    /// Applies `op` with the words of `classes`.
    pub fn with_value(self, op: ClassesOp, classes: &str) -> (r: Self)
        ensures
            r@ == self@.altered(op@, classes@),
    {
        let mut c = self;
        c.alter_value(op, classes);
        c
    }

    /// The value for the `class` attribute.
    pub fn get(&self) -> (r: Option<String>)
        ensures
            opt_view(r) == self@.value(),
    {
        if self.default.len() == 0 && self.added.len() == 0 {
            return None;
        }
        let mut all: Vec<String> = Vec::new();
        let mut i: usize = 0;
        assert(views(all@) == views(self.default@).take(0));
        while i < self.default.len()
            invariant
                i <= self.default@.len(),
                views(all@) == views(self.default@).take(i as int),
            decreases self.default@.len() - i,
        {
            let w = self.default[i].clone();
            proof {
                lemma_views_push(all@, w);
                assert(views(self.default@).take(i + 1) == views(self.default@).take(i as int).push(
                    w@,
                ));
            }
            all.push(w);
            i = i + 1;
        }
        assert(views(self.default@).take(self.default@.len() as int) == views(self.default@));
        let mut j: usize = 0;
        assert(views(all@) == views(self.default@) + views(self.added@).take(0));
        while j < self.added.len()
            invariant
                j <= self.added@.len(),
                views(all@) == views(self.default@) + views(self.added@).take(j as int),
            decreases self.added@.len() - j,
        {
            let w = self.added[j].clone();
            proof {
                lemma_views_push(all@, w);
                assert(views(self.added@).take(j + 1) == views(self.added@).take(j as int).push(
                    w@,
                ));
                assert(views(all@).push(w@) == views(self.default@) + views(self.added@).take(
                    j + 1,
                ));
            }
            all.push(w);
            j = j + 1;
        }
        assert(views(self.added@).take(self.added@.len() as int) == views(self.added@));
        Some(join_words(&all))
    }

    /// Whether `class` is among the classes.
    pub fn contains(&self, class: &str) -> (b: bool)
        ensures
            b == self@.has(class@),
    {
        let w = class.to_owned();
        has_word(&self.default, &w) || has_word(&self.added, &w)
    }
}

} // verus!
