//! What the items of a flexible box can be told: how they grow and shrink,
//! how wide they are, where they start and how they are aligned.

pub mod item;

pub use item::{Item, ItemView};
use vstd::prelude::*;

verus! {

/// How much of the free room an item takes.
#[derive(Clone, Copy, Debug, PartialEq, Eq, Structural)]
pub enum ItemGrow {
    Default,
    Is1,
    Is2,
    Is3,
    Is4,
    Is5,
    Is6,
    Is7,
    Is8,
    Is9,
}

/// The class that stands for the value; none for the first one.
pub open spec fn grow_class(v: ItemGrow) -> Seq<char> {
    match v {
        ItemGrow::Default => ""@,
        ItemGrow::Is1 => "pt-flex__grow-1"@,
        ItemGrow::Is2 => "pt-flex__grow-2"@,
        ItemGrow::Is3 => "pt-flex__grow-3"@,
        ItemGrow::Is4 => "pt-flex__grow-4"@,
        ItemGrow::Is5 => "pt-flex__grow-5"@,
        ItemGrow::Is6 => "pt-flex__grow-6"@,
        ItemGrow::Is7 => "pt-flex__grow-7"@,
        ItemGrow::Is8 => "pt-flex__grow-8"@,
        ItemGrow::Is9 => "pt-flex__grow-9"@,
    }
}

impl ItemGrow {
    /// The class that stands for the value.
    pub fn class(&self) -> (c: &'static str)
        ensures
            c@ == grow_class(*self),
    {
        match self {
            ItemGrow::Default => "",
            ItemGrow::Is1 => "pt-flex__grow-1",
            ItemGrow::Is2 => "pt-flex__grow-2",
            ItemGrow::Is3 => "pt-flex__grow-3",
            ItemGrow::Is4 => "pt-flex__grow-4",
            ItemGrow::Is5 => "pt-flex__grow-5",
            ItemGrow::Is6 => "pt-flex__grow-6",
            ItemGrow::Is7 => "pt-flex__grow-7",
            ItemGrow::Is8 => "pt-flex__grow-8",
            ItemGrow::Is9 => "pt-flex__grow-9",
        }
    }
}

/// How much an item gives way when room is short.
#[derive(Clone, Copy, Debug, PartialEq, Eq, Structural)]
pub enum ItemShrink {
    Default,
    Is1,
    Is2,
    Is3,
    Is4,
    Is5,
    Is6,
    Is7,
    Is8,
    Is9,
}

/// The class that stands for the value; none for the first one.
pub open spec fn shrink_class(v: ItemShrink) -> Seq<char> {
    match v {
        ItemShrink::Default => ""@,
        ItemShrink::Is1 => "pt-flex__shrink-1"@,
        ItemShrink::Is2 => "pt-flex__shrink-2"@,
        ItemShrink::Is3 => "pt-flex__shrink-3"@,
        ItemShrink::Is4 => "pt-flex__shrink-4"@,
        ItemShrink::Is5 => "pt-flex__shrink-5"@,
        ItemShrink::Is6 => "pt-flex__shrink-6"@,
        ItemShrink::Is7 => "pt-flex__shrink-7"@,
        ItemShrink::Is8 => "pt-flex__shrink-8"@,
        ItemShrink::Is9 => "pt-flex__shrink-9"@,
    }
}

impl ItemShrink {
    /// The class that stands for the value.
    pub fn class(&self) -> (c: &'static str)
        ensures
            c@ == shrink_class(*self),
    {
        match self {
            ItemShrink::Default => "",
            ItemShrink::Is1 => "pt-flex__shrink-1",
            ItemShrink::Is2 => "pt-flex__shrink-2",
            ItemShrink::Is3 => "pt-flex__shrink-3",
            ItemShrink::Is4 => "pt-flex__shrink-4",
            ItemShrink::Is5 => "pt-flex__shrink-5",
            ItemShrink::Is6 => "pt-flex__shrink-6",
            ItemShrink::Is7 => "pt-flex__shrink-7",
            ItemShrink::Is8 => "pt-flex__shrink-8",
            ItemShrink::Is9 => "pt-flex__shrink-9",
        }
    }
}

/// How wide an item is.
#[derive(Clone, Copy, Debug, PartialEq, Eq, Structural)]
pub enum ItemSize {
    Default,
    Percent10,
    Percent20,
    Percent25,
    Percent33,
    Percent40,
    Percent50,
    Percent60,
    Percent66,
    Percent75,
    Percent80,
    Percent90,
}

/// The class that stands for the value; none for the first one.
pub open spec fn size_class(v: ItemSize) -> Seq<char> {
    match v {
        ItemSize::Default => ""@,
        ItemSize::Percent10 => "pt-flex__width-10"@,
        ItemSize::Percent20 => "pt-flex__width-20"@,
        ItemSize::Percent25 => "pt-flex__width-25"@,
        ItemSize::Percent33 => "pt-flex__width-33"@,
        ItemSize::Percent40 => "pt-flex__width-40"@,
        ItemSize::Percent50 => "pt-flex__width-50"@,
        ItemSize::Percent60 => "pt-flex__width-60"@,
        ItemSize::Percent66 => "pt-flex__width-66"@,
        ItemSize::Percent75 => "pt-flex__width-75"@,
        ItemSize::Percent80 => "pt-flex__width-80"@,
        ItemSize::Percent90 => "pt-flex__width-90"@,
    }
}

impl ItemSize {
    /// The class that stands for the value.
    pub fn class(&self) -> (c: &'static str)
        ensures
            c@ == size_class(*self),
    {
        match self {
            ItemSize::Default => "",
            ItemSize::Percent10 => "pt-flex__width-10",
            ItemSize::Percent20 => "pt-flex__width-20",
            ItemSize::Percent25 => "pt-flex__width-25",
            ItemSize::Percent33 => "pt-flex__width-33",
            ItemSize::Percent40 => "pt-flex__width-40",
            ItemSize::Percent50 => "pt-flex__width-50",
            ItemSize::Percent60 => "pt-flex__width-60",
            ItemSize::Percent66 => "pt-flex__width-66",
            ItemSize::Percent75 => "pt-flex__width-75",
            ItemSize::Percent80 => "pt-flex__width-80",
            ItemSize::Percent90 => "pt-flex__width-90",
        }
    }
}

/// How far from the start an item stands.
#[derive(Clone, Copy, Debug, PartialEq, Eq, Structural)]
pub enum ItemOffset {
    Default,
    Offset10,
    Offset20,
    Offset25,
    Offset33,
    Offset40,
    Offset50,
    Offset60,
    Offset66,
    Offset75,
    Offset80,
    Offset90,
}

/// The class that stands for the value; none for the first one.
pub open spec fn offset_class(v: ItemOffset) -> Seq<char> {
    match v {
        ItemOffset::Default => ""@,
        ItemOffset::Offset10 => "pt-flex__offset-10"@,
        ItemOffset::Offset20 => "pt-flex__offset-20"@,
        ItemOffset::Offset25 => "pt-flex__offset-25"@,
        ItemOffset::Offset33 => "pt-flex__offset-33"@,
        ItemOffset::Offset40 => "pt-flex__offset-40"@,
        ItemOffset::Offset50 => "pt-flex__offset-50"@,
        ItemOffset::Offset60 => "pt-flex__offset-60"@,
        ItemOffset::Offset66 => "pt-flex__offset-66"@,
        ItemOffset::Offset75 => "pt-flex__offset-75"@,
        ItemOffset::Offset80 => "pt-flex__offset-80"@,
        ItemOffset::Offset90 => "pt-flex__offset-90"@,
    }
}

impl ItemOffset {
    /// The class that stands for the value.
    pub fn class(&self) -> (c: &'static str)
        ensures
            c@ == offset_class(*self),
    {
        match self {
            ItemOffset::Default => "",
            ItemOffset::Offset10 => "pt-flex__offset-10",
            ItemOffset::Offset20 => "pt-flex__offset-20",
            ItemOffset::Offset25 => "pt-flex__offset-25",
            ItemOffset::Offset33 => "pt-flex__offset-33",
            ItemOffset::Offset40 => "pt-flex__offset-40",
            ItemOffset::Offset50 => "pt-flex__offset-50",
            ItemOffset::Offset60 => "pt-flex__offset-60",
            ItemOffset::Offset66 => "pt-flex__offset-66",
            ItemOffset::Offset75 => "pt-flex__offset-75",
            ItemOffset::Offset80 => "pt-flex__offset-80",
            ItemOffset::Offset90 => "pt-flex__offset-90",
        }
    }
}

/// How an item is aligned across the box.
#[derive(Clone, Copy, Debug, PartialEq, Eq, Structural)]
pub enum ItemAlign {
    Default,
    Top,
    Bottom,
    Middle,
    Stretch,
    Baseline,
}

/// The class that stands for the value; none for the first one.
pub open spec fn align_class(v: ItemAlign) -> Seq<char> {
    match v {
        ItemAlign::Default => ""@,
        ItemAlign::Top => "pt-flex__item-top"@,
        ItemAlign::Bottom => "pt-flex__item-bottom"@,
        ItemAlign::Middle => "pt-flex__item-middle"@,
        ItemAlign::Stretch => "pt-flex__item-stretch"@,
        ItemAlign::Baseline => "pt-flex__item-baseline"@,
    }
}

impl ItemAlign {
    /// The class that stands for the value.
    pub fn class(&self) -> (c: &'static str)
        ensures
            c@ == align_class(*self),
    {
        match self {
            ItemAlign::Default => "",
            ItemAlign::Top => "pt-flex__item-top",
            ItemAlign::Bottom => "pt-flex__item-bottom",
            ItemAlign::Middle => "pt-flex__item-middle",
            ItemAlign::Stretch => "pt-flex__item-stretch",
            ItemAlign::Baseline => "pt-flex__item-baseline",
        }
    }
}

} // verus!
