//! An optional identifier, kept in a form that can stand in an `id` attribute.

use crate::html::markup::opt_view;
use crate::text::{trim, trimmed, underscore, underscored};
use vstd::prelude::*;

verus! {

/// `s` as an option: none when it is empty.
pub open spec fn non_empty(s: Seq<char>) -> Option<Seq<char>> {
    if s.len() == 0 {
        None
    } else {
        Some(s)
    }
}

/// The identifier that `value` stands for: trimmed, spaces as underscores.
pub open spec fn identifier(value: Seq<char>) -> Seq<char> {
    underscored(trimmed(value))
}

/// An optional identifier.
pub struct OptionId(Option<String>);

impl View for OptionId {
    type V = Option<Seq<char>>;

    /// The identifier, if one was given and it is not empty.
    closed spec fn view(&self) -> Option<Seq<char>> {
        match self.0 {
            Some(s) => non_empty(s@),
            None => None,
        }
    }
}

impl OptionId {
    pub fn new() -> (r: Self)
        ensures
            r@ is None,
    {
        OptionId(None)
    }

    pub fn with(value: &str) -> (r: Self)
        ensures
            r@ == non_empty(identifier(value@)),
    {
        let mut opt = OptionId::new();
        opt.alter_value(value);
        opt
    }

    pub fn alter_value(&mut self, value: &str) -> (r: &mut Self)
        ensures
            r@ == non_empty(identifier(value@)),
            *final(self) == *final(r),
    {
        let t = trim(value);
        self.0 = Some(underscore(t.as_str()));
        self
    }

    pub fn with_value(self, value: &str) -> (r: Self)
        ensures
            r@ == non_empty(identifier(value@)),
    {
        let mut opt = self;
        opt.alter_value(value);
        opt
    }

    pub fn get(&self) -> (r: Option<String>)
        ensures
            opt_view(r) == self@,
    {
        match &self.0 {
            Some(value) => {
                if value.as_str().unicode_len() > 0 {
                    Some(value.clone())
                } else {
                    None
                }
            },
            None => None,
        }
    }
}

} // verus!
