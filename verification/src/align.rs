use vstd::prelude::*;
use crate::axis::Axis2d;

verus! {

/// Along which directions the next alignment step moves a child's origin.
#[derive(Clone, Copy, Debug, PartialEq, Eq, Structural)]
pub struct AlignFlags {
    pub horizontal: bool,
    pub vertical: bool,
}

impl AlignFlags {
    /// Exactly one direction is selected.
    pub open spec fn is_single(self) -> bool {
        self.horizontal != self.vertical
    }

    /// Both directions switched.
    pub open spec fn flipped(self) -> AlignFlags {
        AlignFlags { horizontal: !self.horizontal, vertical: !self.vertical }
    }

    /// The directions selected after `n` switches.
    pub open spec fn flipped_n(self, n: nat) -> AlignFlags
        decreases n,
    {
        if n == 0 {
            self
        } else {
            self.flipped_n((n - 1) as nat).flipped()
        }
    }

    /// The direction of the primary axis: the group of all children is first
    /// aligned along it.
    pub open spec fn spec_along(axis: Axis2d) -> AlignFlags {
        AlignFlags { horizontal: axis == Axis2d::X, vertical: axis == Axis2d::Y }
    }

    /// The directions in which the child at `index` (counting from zero) is
    /// aligned: the flags are switched once before each child is aligned.
    pub open spec fn for_child(axis: Axis2d, index: nat) -> AlignFlags {
        Self::spec_along(axis).flipped_n(index + 1)
    }

    pub fn along(axis: Axis2d) -> (f: AlignFlags)
        ensures
            f == Self::spec_along(axis),
            f.horizontal == (axis == Axis2d::X),
            f.vertical == (axis == Axis2d::Y),
            f.horizontal != f.vertical,
    {
        let mut f = AlignFlags { horizontal: false, vertical: false };
        match axis {
            Axis2d::X => f.horizontal = true,
            Axis2d::Y => f.vertical = true,
        }
        f
    }

    /// Switches both directions, as is done before each child is aligned.
    pub fn flip(&mut self)
        ensures
            *final(self) == old(self).flipped(),
            final(self).horizontal == !old(self).horizontal,
            final(self).vertical == !old(self).vertical,
    {
        self.horizontal = !self.horizontal;
        self.vertical = !self.vertical;
    }
}

/// The directions in which each of `count` children is aligned, in order:
/// entry `k` is what the flags hold when the child at position `k` is aligned.
pub fn alignment_plan(axis: Axis2d, count: usize) -> (plan: Vec<AlignFlags>)
    ensures
        plan@.len() == count,
        forall|k: int| 0 <= k < count ==> #[trigger] plan@[k] == AlignFlags::for_child(axis, k as nat),
        forall|k: int|
            0 <= k < count ==> (#[trigger] plan@[k]).horizontal == ((axis == Axis2d::X) == (k % 2
                == 1)) && plan@[k].vertical == ((axis == Axis2d::Y) == (k % 2 == 1)),
{
    let mut plan: Vec<AlignFlags> = Vec::new();
    let mut flags = AlignFlags::along(axis);
    let mut i: usize = 0;
    while i < count
        invariant
            i <= count,
            plan@.len() == i,
            flags == AlignFlags::spec_along(axis).flipped_n(i as nat),
            forall|k: int| 0 <= k < i ==> #[trigger] plan@[k] == AlignFlags::for_child(axis, k as nat),
        decreases count - i,
    {
        flags.flip();
        plan.push(flags);
        i = i + 1;
    }
    proof {
        assert forall|k: int| 0 <= k < count implies (#[trigger] plan@[k]).horizontal == ((axis
            == Axis2d::X) == (k % 2 == 1)) && plan@[k].vertical == ((axis == Axis2d::Y) == (k % 2
            == 1)) by {
            lemma_child_alignment(axis, k as nat);
        }
    }
    plan
}

/// Switching twice restores the flags.
pub proof fn lemma_flip_twice(f: AlignFlags)
    ensures
        f.flipped().flipped() == f,
        f.flipped().horizontal == !f.horizontal,
        f.flipped().vertical == !f.vertical,
{
}

/// After `n` switches the flags are the original ones when `n` is even and the
/// switched ones when `n` is odd.
pub proof fn lemma_flipped_n_parity(f: AlignFlags, n: nat)
    ensures
        f.flipped_n(n) == (if n % 2 == 0 { f } else { f.flipped() }),
    decreases n,
{
    if n > 0 {
        lemma_flipped_n_parity(f, (n - 1) as nat);
    }
}

/// Switching keeps exactly one direction selected, however often it is done.
pub proof fn lemma_flipped_n_single(f: AlignFlags, n: nat)
    requires
        f.is_single(),
    ensures
        f.flipped_n(n).is_single(),
{
    lemma_flipped_n_parity(f, n);
}

/// Every child is aligned along exactly one direction: the cross axis for the
/// children at even positions and the primary axis for those at odd ones.
pub proof fn lemma_child_alignment(axis: Axis2d, index: nat)
    ensures
        AlignFlags::for_child(axis, index).is_single(),
        AlignFlags::for_child(axis, index).horizontal == ((axis == Axis2d::X) == (index % 2 == 1)),
        AlignFlags::for_child(axis, index).vertical == ((axis == Axis2d::Y) == (index % 2 == 1)),
        AlignFlags::for_child(axis, index).horizontal != AlignFlags::for_child(axis, index).vertical,
        AlignFlags::for_child(axis, index) == (if index % 2 == 0 {
            AlignFlags::spec_along(axis).flipped()
        } else {
            AlignFlags::spec_along(axis)
        }),
{
    lemma_flipped_n_parity(AlignFlags::spec_along(axis), index + 1);
}

} // verus!
