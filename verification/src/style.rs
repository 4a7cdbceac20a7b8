use vstd::prelude::*;

verus! {

/// What a node does with content that does not fit.
#[derive(Clone, Copy, Debug, PartialEq, Eq, Structural)]
pub enum Overflow {
    Visible,
    Hidden,
    Auto,
}

impl Default for Overflow {
    fn default() -> (o: Self)
        ensures
            o == Overflow::Visible,
    {
        Overflow::Visible
    }
}

#[derive(Clone, Copy, Debug, PartialEq, Eq, Structural)]
pub enum FontStyle {
    Normal,
    Italic,
    Oblique,
}

impl Default for FontStyle {
    fn default() -> (s: Self)
        ensures
            s == FontStyle::Normal,
    {
        FontStyle::Normal
    }
}

#[derive(Clone, Copy, Debug, PartialEq, Eq, Structural)]
pub enum FontWeight {
    Thin,
    ExtraLight,
    Light,
    Normal,
    Medium,
    Semibold,
    Bold,
    ExtraBold,
    Black,
}

impl Default for FontWeight {
    fn default() -> (w: Self)
        ensures
            w == FontWeight::Normal,
    {
        FontWeight::Normal
    }
}

} // verus!
