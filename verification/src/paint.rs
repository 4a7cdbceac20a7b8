use vstd::prelude::*;
use crate::border::Border;
use crate::color::{Color, Fill};

verus! {

/// A node paints a quad (its background and border) when its fill paints a
/// background or its border is visible.
pub open spec fn spec_paints_quad(fill: Fill, border: Border, border_width_is_positive: bool) -> bool {
    fill.spec_background() is Some || border.spec_is_visible(border_width_is_positive)
}

pub fn paints_quad(fill: &Fill, border: &Border, border_width_is_positive: bool) -> (r: bool)
    ensures
        r == spec_paints_quad(*fill, *border, border_width_is_positive),
        r == (fill.color().a != 0 || (border_width_is_positive && border.color.a != 0 && (
        border.top || border.bottom || border.left || border.right))),
{
    let background = fill.background();
    background.is_some() || border.is_visible(border_width_is_positive)
}

/// A node with the default fill and the default border paints nothing,
/// whatever the border's width.
pub proof fn lemma_default_style_paints_nothing(border_width_is_positive: bool)
    ensures
        !spec_paints_quad(
            Fill::Color(Color { r: 0, g: 0, b: 0, a: 0 }),
            Border {
                color: Color { r: 0, g: 0, b: 0, a: 0 },
                top: false,
                bottom: false,
                left: false,
                right: false,
            },
            border_width_is_positive,
        ),
{
}

/// Whenever a quad is painted, it has something to show: a background color
/// that is not fully transparent, or a border side.
pub proof fn lemma_painted_quad_shows_something(fill: Fill, border: Border, w: bool)
    requires
        spec_paints_quad(fill, border, w),
    ensures
        fill.color().a != 0 || (border.color.a != 0 && border.any_side()),
{
}

/// A node paints its quad exactly when its fill color's alpha is nonzero, or
/// its border has a positive width, a nonzero alpha and at least one drawn
/// side. In particular any fill that is not fully transparent, however
/// translucent and whatever its color, gets a quad with that color as its
/// background.
pub proof fn lemma_paints_quad_exactly(fill: Fill, border: Border, w: bool)
    ensures
        spec_paints_quad(fill, border, w) == (fill.color().a != 0 || (w && border.color.a != 0 && (
        border.top || border.bottom || border.left || border.right))),
        fill.color().a != 0 ==> spec_paints_quad(fill, border, w) && fill.spec_background()
            == Some(fill.color()),
{
}

} // verus!
