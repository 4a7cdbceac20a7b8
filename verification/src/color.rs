use vstd::prelude::*;

verus! {

/// An 8-bit-per-channel RGBA color, the channels that the rendering layer's
/// color value carries.
#[derive(Clone, Copy, Debug, PartialEq, Eq, Structural)]
pub struct Color {
    pub r: u8,
    pub g: u8,
    pub b: u8,
    pub a: u8,
}

impl Color {
    pub fn new(r: u8, g: u8, b: u8, a: u8) -> (c: Color)
        ensures
            c == (Color { r, g, b, a }),
    {
        Color { r, g, b, a }
    }

    /// A color is fully transparent exactly when its alpha channel is zero.
    pub open spec fn spec_is_fully_transparent(self) -> bool {
        self.a == 0
    }

    pub fn is_fully_transparent(&self) -> (r: bool)
        ensures
            r == self.spec_is_fully_transparent(),
            r == (self.a == 0),
    {
        self.a == 0
    }
}

impl Default for Color {
    /// Transparent black: every channel zero.
    fn default() -> (c: Self)
        ensures
            c == (Color { r: 0, g: 0, b: 0, a: 0 }),
    {
        Color { r: 0, g: 0, b: 0, a: 0 }
    }
}

/// How the inside of a node is filled.
#[derive(Clone, Copy, Debug, PartialEq, Eq, Structural)]
pub enum Fill {
    Color(Color),
}

impl Fill {
    /// The color that the fill paints with.
    pub open spec fn color(self) -> Color {
        match self {
            Fill::Color(c) => c,
        }
    }

    /// The background that a painted quad gets from this fill: the fill's
    /// color, unless that color is fully transparent.
    pub open spec fn spec_background(self) -> Option<Color> {
        if self.color().spec_is_fully_transparent() {
            None
        } else {
            Some(self.color())
        }
    }

    pub fn background(&self) -> (r: Option<Color>)
        ensures
            r == self.spec_background(),
            r == (if self.color().a == 0 { None } else { Some(self.color()) }),
    {
        let Fill::Color(c) = *self;
        let visible = !c.is_fully_transparent();
        if visible {
            Some(c)
        } else {
            None
        }
    }
}

impl From<Color> for Fill {
    fn from(value: Color) -> (f: Fill) {
        Fill::Color(value)
    }
}

impl vstd::std_specs::convert::FromSpecImpl<Color> for Fill {
    open spec fn obeys_from_spec() -> bool {
        true
    }

    open spec fn from_spec(v: Color) -> Fill {
        Fill::Color(v)
    }
}

impl Default for Fill {
    /// The default fill uses the default (fully transparent) color.
    fn default() -> (f: Self)
        ensures
            f == Fill::Color(Color { r: 0, g: 0, b: 0, a: 0 }),
    {
        Fill::Color(Color::default())
    }
}

/// A fill's background is its color, unchanged, whenever the alpha is nonzero
/// (whatever the red, green and blue channels), and nothing when the alpha is
/// zero.
pub proof fn lemma_background_keeps_any_visible_color(c: Color)
    ensures
        c.spec_is_fully_transparent() == (c.a == 0),
        c.a != 0 ==> Fill::Color(c).spec_background() == Some(c),
        c.a == 0 ==> Fill::Color(c).spec_background() == None::<Color>,
{
}

} // verus!
