use vstd::prelude::*;

verus! {

/// What one scene query and the struck material did with a ray.
#[derive(Clone, Copy, Debug, PartialEq, Eq, Structural)]
pub enum Bounce {
    /// The ray left the scene.
    Miss,
    /// The ray struck a surface that absorbed it.
    Absorbed,
    /// The ray struck a surface and was scattered onwards.
    Scattered,
}

/// What the path estimator does after a scene query.
#[derive(Clone, Copy, Debug, PartialEq, Eq, Structural)]
pub enum Step {
    /// The path ends in darkness.
    Black,
    /// The path ends in the sky gradient seen along the ray.
    Sky,
    /// The scattered ray is traced, attenuated, with the remaining bounce budget `depth`.
    Trace { depth: u32 },
}

/// The colour that ends a path, before the attenuations met along it are applied.
#[derive(Clone, Copy, Debug, PartialEq, Eq, Structural)]
pub enum Shade {
    Black,
    Sky,
}

/// The step taken by a ray with bounce budget `depth > 0` after its scene query met `bounce`.
pub open spec fn step_of(depth: nat, bounce: Bounce) -> Step {
    match bounce {
        Bounce::Miss => Step::Sky,
        Bounce::Absorbed => Step::Black,
        Bounce::Scattered => Step::Trace { depth: (depth - 1) as u32 },
    }
}

/// How a path traced with bounce budget `depth` ends, when its `k`-th scene query (from zero)
/// meets `bounces(k)`: how many scene queries it makes, and the shade that ends it.
pub open spec fn path_end(depth: u32, bounces: spec_fn(nat) -> Bounce) -> (nat, Shade)
    decreases depth,
{
    if depth == 0 {
        (0, Shade::Black)
    } else {
        match step_of(depth as nat, bounces(0)) {
            Step::Black => (1, Shade::Black),
            Step::Sky => (1, Shade::Sky),
            Step::Trace { depth: rest } => {
                let tail = path_end(rest, |k: nat| bounces(k + 1));
                (tail.0 + 1, tail.1)
            },
        }
    }
}

/// A path with no bounce budget is black, whatever the ray and the scene, and queries nothing.
pub proof fn lemma_exhausted_path_is_black(bounces: spec_fn(nat) -> Bounce)
    ensures
        path_end(0, bounces) == (0nat, Shade::Black),
{
}

/// A path never makes more scene queries than its bounce budget.
pub proof fn lemma_queries_within_budget(depth: u32, bounces: spec_fn(nat) -> Bounce)
    ensures
        path_end(depth, bounces).0 <= depth,
    decreases depth,
{
    if depth > 0 && bounces(0) == Bounce::Scattered {
        lemma_queries_within_budget((depth - 1) as u32, |k: nat| bounces(k + 1));
    }
}

/// Whether a ray with bounce budget `depth` is traced no further: it then contributes black,
/// and the scene is not queried.
pub fn is_exhausted(depth: u32) -> (r: bool)
    ensures
        r == (depth == 0),
{
    depth == 0
}

/// The step after the scene query of a ray that still has bounce budget `depth`.
pub fn next_step(depth: u32, bounce: Bounce) -> (r: Step)
    requires
        depth > 0,
    ensures
        r == step_of(depth as nat, bounce),
{
    match bounce {
        Bounce::Miss => Step::Sky,
        Bounce::Absorbed => Step::Black,
        Bounce::Scattered => Step::Trace { depth: depth - 1 },
    }
}

} // verus!
