use vstd::prelude::*;
use crate::color::Color;

verus! {

/// The border of a node: its color and the sides on which it is drawn. The
/// border's width is a length of the rendering layer; the decisions here read
/// only whether that width is positive.
#[derive(Clone, Copy, Debug, PartialEq, Eq, Structural)]
pub struct Border {
    pub color: Color,
    pub top: bool,
    pub bottom: bool,
    pub left: bool,
    pub right: bool,
}

/// 1 for a side that is drawn, 0 for one that is not.
pub open spec fn side_count(drawn: bool) -> nat {
    if drawn {
        1
    } else {
        0
    }
}

impl Border {
    /// The same border with its red, green and blue channels replaced.
    pub open spec fn with_rgb(self, r: u8, g: u8, b: u8) -> Border {
        Border { color: Color { r, g, b, a: self.color.a }, ..self }
    }

    /// Whether the border is drawn on at least one side.
    pub open spec fn any_side(self) -> bool {
        self.top || self.bottom || self.left || self.right
    }

    /// A border is visible when its width is positive, its color is not fully
    /// transparent, and it is drawn on at least one side.
    pub open spec fn spec_is_visible(self, width_is_positive: bool) -> bool {
        width_is_positive && !self.color.spec_is_fully_transparent() && self.any_side()
    }

    pub fn is_visible(&self, width_is_positive: bool) -> (r: bool)
        ensures
            r == self.spec_is_visible(width_is_positive),
            r == (width_is_positive && self.color.a != 0 && (self.top || self.bottom || self.left
                || self.right)),
    {
        width_is_positive && !self.color.is_fully_transparent() && (self.top || self.bottom
            || self.left || self.right)
    }

    /// How many border widths the border adds to a node's horizontal size:
    /// one for the left side and one for the right side, where drawn.
    pub open spec fn spec_horizontal_sides(self) -> nat {
        side_count(self.left) + side_count(self.right)
    }

    /// How many border widths the border adds to a node's vertical size:
    /// one for the top side and one for the bottom side, where drawn.
    pub open spec fn spec_vertical_sides(self) -> nat {
        side_count(self.top) + side_count(self.bottom)
    }

    pub fn horizontal_sides(&self) -> (n: u8)
        ensures
            n == self.spec_horizontal_sides(),
            n == (if self.left { 1int } else { 0int }) + (if self.right { 1int } else { 0int }),
            n <= 2,
    {
        let mut n: u8 = 0;
        if self.left {
            n = n + 1;
        }
        if self.right {
            n = n + 1;
        }
        n
    }

    pub fn vertical_sides(&self) -> (n: u8)
        ensures
            n == self.spec_vertical_sides(),
            n == (if self.top { 1int } else { 0int }) + (if self.bottom { 1int } else { 0int }),
            n <= 2,
    {
        let mut n: u8 = 0;
        if self.top {
            n = n + 1;
        }
        if self.bottom {
            n = n + 1;
        }
        n
    }
}

impl Default for Border {
    /// No side drawn, in the default (fully transparent) color.
    fn default() -> (b: Self)
        ensures
            b == (Border {
                color: Color { r: 0, g: 0, b: 0, a: 0 },
                top: false,
                bottom: false,
                left: false,
                right: false,
            }),
    {
        Border { color: Color::default(), top: false, bottom: false, left: false, right: false }
    }
}

/// A visible border always takes up room: it is drawn on at least one side, so
/// it adds at least one width to the node's horizontal or vertical size.
pub proof fn lemma_visible_border_has_size(b: Border, width_is_positive: bool)
    requires
        b.spec_is_visible(width_is_positive),
    ensures
        b.spec_horizontal_sides() + b.spec_vertical_sides() >= 1,
{
}

/// A border is visible exactly when its width is positive, its alpha is
/// nonzero and at least one side is drawn; the red, green and blue channels
/// play no part.
pub proof fn lemma_visibility_reads_width_alpha_sides(b: Border, width_is_positive: bool)
    ensures
        b.spec_is_visible(width_is_positive) == (width_is_positive && b.color.a != 0 && (b.top
            || b.bottom || b.left || b.right)),
        forall|r: u8, g: u8, bl: u8|
            #[trigger] b.with_rgb(r, g, bl).spec_is_visible(width_is_positive)
                == b.spec_is_visible(width_is_positive),
{
}

/// Each drawn side adds exactly one border width in its direction: the left
/// and right sides horizontally, the top and bottom sides vertically.
pub proof fn lemma_side_counts_per_side(b: Border)
    ensures
        b.spec_horizontal_sides() == (if b.left { 1int } else { 0int }) + (if b.right { 1int } else { 0int }),
        b.spec_vertical_sides() == (if b.top { 1int } else { 0int }) + (if b.bottom { 1int } else { 0int }),
        b.spec_horizontal_sides() <= 2,
        b.spec_vertical_sides() <= 2,
        (b.spec_horizontal_sides() == 0) == (!b.left && !b.right),
        (b.spec_vertical_sides() == 0) == (!b.top && !b.bottom),
        (b.spec_horizontal_sides() == 2) == (b.left && b.right),
        (b.spec_vertical_sides() == 2) == (b.top && b.bottom),
{
}

/// Drawing one more side adds exactly one width in that side's direction and
/// nothing in the other.
pub proof fn lemma_adding_a_side(b: Border)
    ensures
        !b.left ==> (Border { left: true, ..b }).spec_horizontal_sides() == b.spec_horizontal_sides() + 1
            && (Border { left: true, ..b }).spec_vertical_sides() == b.spec_vertical_sides(),
        !b.right ==> (Border { right: true, ..b }).spec_horizontal_sides() == b.spec_horizontal_sides() + 1
            && (Border { right: true, ..b }).spec_vertical_sides() == b.spec_vertical_sides(),
        !b.top ==> (Border { top: true, ..b }).spec_vertical_sides() == b.spec_vertical_sides() + 1
            && (Border { top: true, ..b }).spec_horizontal_sides() == b.spec_horizontal_sides(),
        !b.bottom ==> (Border { bottom: true, ..b }).spec_vertical_sides() == b.spec_vertical_sides() + 1
            && (Border { bottom: true, ..b }).spec_horizontal_sides() == b.spec_horizontal_sides(),
{
}

} // verus!
