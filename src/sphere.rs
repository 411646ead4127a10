use vstd::prelude::*;

verus! {

/// One of the two roots `t` of the ray/sphere quadratic.
#[derive(Clone, Copy, Debug, PartialEq, Eq, Structural)]
pub enum Root {
    /// The smaller root, where the ray enters the sphere.
    Near,
    /// The larger root, where the ray leaves the sphere.
    Far,
}

/// The root that a sphere hit is taken at, given whether each root lies within the
/// accepted interval `[t_min, t_max]`: the nearest accepted one, or none.
pub open spec fn chosen_root(near_accepted: bool, far_accepted: bool) -> Option<Root> {
    if near_accepted {
        Some(Root::Near)
    } else if far_accepted {
        Some(Root::Far)
    } else {
        None
    }
}

/// Picks the root of a ray/sphere intersection that the hit record is built from. A ray
/// that starts outside the sphere takes the entry point; one that starts inside, where
/// the entry point lies behind `t_min`, takes the exit point.
pub fn select_root(near_accepted: bool, far_accepted: bool) -> (r: Option<Root>)
    ensures
        r == chosen_root(near_accepted, far_accepted),
{
    if near_accepted {
        Some(Root::Near)
    } else if far_accepted {
        Some(Root::Far)
    } else {
        None
    }
}

} // verus!
