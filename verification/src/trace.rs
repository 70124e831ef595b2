use vstd::prelude::*;

verus! {

/// What the scene reported for one bounce of the radiance estimator: the
/// ray left the scene, the surface it struck absorbed it, or the surface
/// scattered it into a new ray.
#[derive(Clone, Copy, PartialEq, Eq, Structural, Debug)]
pub enum PathEvent {
    Miss,
    Absorbed,
    Scattered,
}

/// What the estimator does next: shade with the sky gradient, end the
/// path with no contribution, or recurse on the scattered ray at the
/// given depth.
#[derive(Clone, Copy, PartialEq, Eq, Structural, Debug)]
pub enum PathAction {
    Background,
    Black,
    Bounce(u32),
}

/// The depth budget of the estimator. A path is followed only while
/// `depth < max_depth`; once the budget is spent the estimator returns
/// black without touching the scene, whatever the scene contains — depth,
/// not wall-clock time, bounds the recursion.
pub fn depth_remaining(depth: u32, max_depth: u32) -> (r: bool)
    ensures
        r <==> depth < max_depth,
{
    depth < max_depth
}

/// The shading decision for one bounce, taken after the scene has been
/// probed: a miss shows the sky gradient, absorption ends the path black,
/// and a scattered ray is followed one level deeper.
pub fn bounce_action(event: PathEvent, depth: u32, max_depth: u32) -> (a: PathAction)
    requires
        depth < max_depth,
    ensures
        event is Miss ==> a is Background,
        event is Absorbed ==> a is Black,
        event is Scattered ==> (a matches PathAction::Bounce(d) && d == depth + 1),
{
    match event {
        PathEvent::Miss => PathAction::Background,
        PathEvent::Absorbed => PathAction::Black,
        PathEvent::Scattered => PathAction::Bounce(depth + 1),
    }
}

} // verus!
