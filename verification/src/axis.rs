use vstd::prelude::*;

verus! {

/// The axis along which a node places its children; `Z` stacks them.
#[derive(Clone, Copy, Debug, PartialEq, Eq, Structural)]
pub enum Axis3d {
    X,
    Y,
    Z,
}

/// A planar axis.
#[derive(Clone, Copy, Debug, PartialEq, Eq, Structural)]
pub enum Axis2d {
    X,
    Y,
}

impl Axis3d {
    /// The planar axis that this axis names, or `None` for the stacking axis.
    pub open spec fn spec_to_2d(self) -> Option<Axis2d> {
        match self {
            Axis3d::X => Some(Axis2d::X),
            Axis3d::Y => Some(Axis2d::Y),
            Axis3d::Z => None,
        }
    }

    pub fn to_2d(self) -> (r: Option<Axis2d>)
        ensures
            r == self.spec_to_2d(),
            self == Axis3d::X ==> r == Some(Axis2d::X),
            self == Axis3d::Y ==> r == Some(Axis2d::Y),
            self == Axis3d::Z ==> r == None::<Axis2d>,
    {
        match self {
            Axis3d::X => Some(Axis2d::X),
            Axis3d::Y => Some(Axis2d::Y),
            Axis3d::Z => None,
        }
    }
}

impl Default for Axis3d {
    /// Nodes lay their children out vertically unless told otherwise.
    fn default() -> (r: Self)
        ensures
            r == Axis3d::Y,
    {
        Axis3d::Y
    }
}

impl Default for Axis2d {
    fn default() -> (r: Self)
        ensures
            r == Axis2d::Y,
    {
        Axis2d::Y
    }
}

} // verus!
