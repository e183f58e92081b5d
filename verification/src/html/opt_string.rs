//! An optional attribute value: text that counts as absent when it is blank.

use crate::html::markup::opt_view;
use crate::html::opt_id::non_empty;
use crate::text::{trim, trimmed};
use vstd::prelude::*;

verus! {

/// An optional value of an attribute.
pub struct OptionString(Option<String>);

impl View for OptionString {
    type V = Option<Seq<char>>;

    /// The value, if one was given and it is not empty.
    closed spec fn view(&self) -> Option<Seq<char>> {
        match self.0 {
            Some(s) => non_empty(s@),
            None => None,
        }
    }
}

impl OptionString {
    pub fn new() -> (r: Self)
        ensures
            r@ is None,
    {
        OptionString(None)
    }

    pub fn with(value: &str) -> (r: Self)
        ensures
            r@ == non_empty(trimmed(value@)),
    {
        let mut opt = OptionString::new();
        opt.alter_value(value);
        opt
    }

    pub fn alter_value(&mut self, value: &str) -> (r: &mut Self)
        ensures
            r@ == non_empty(trimmed(value@)),
            *final(self) == *final(r),
    {
        self.0 = Some(trim(value));
        self
    }

    /// Sets the value to `value` as it is if `on`, and to nothing otherwise.
    pub fn alter_flag(&mut self, on: bool, value: &str) -> (r: &mut Self)
        ensures
            r@ == if on {
                non_empty(value@)
            } else {
                None
            },
            *final(self) == *final(r),
    {
        if on {
            self.0 = Some(value.to_owned());
        } else {
            self.0 = None;
        }
        self
    }

    pub fn with_value(self, value: &str) -> (r: Self)
        ensures
            r@ == non_empty(trimmed(value@)),
    {
        let mut opt = self;
        opt.alter_value(value);
        opt
    }

    pub fn get(&self) -> (r: Option<String>)
        ensures
            opt_view(r) == self@,
    {
        match &self.0 {
            Some(value) => {
                if value.as_str().unicode_len() > 0 {
                    Some(value.clone())
                } else {
                    None
                }
            },
            None => None,
        }
    }
}

} // verus!
