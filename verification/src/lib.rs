//! The discrete part of a box-layout element: which axis a node lays its
//! children along, how children are aligned while they are painted, when a
//! border or a background is drawn, and the style enums with their defaults.
//!
//! Every length, offset and size of the element is a floating-point value;
//! those computations live with the rendering code, which hands this library
//! the plain values that each decision reads.

pub mod align;
pub mod axis;
pub mod border;
pub mod color;
pub mod paint;
pub mod style;

pub use align::{alignment_plan, AlignFlags};
pub use axis::{Axis2d, Axis3d};
pub use border::Border;
pub use color::{Color, Fill};
pub use paint::paints_quad;
pub use style::{FontStyle, FontWeight, Overflow};
