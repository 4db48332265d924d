use vstd::prelude::*;

verus! {

/// What the nearest-hit test and the hit material's scatter reported for the
/// ray that a path is following.
#[derive(Debug, Clone, Copy, PartialEq, Eq, Structural)]
pub enum PathEvent {
    /// The ray left the scene: it sees the background.
    Miss,
    /// The ray hit a surface, whose material did or did not scatter it on.
    Hit { scattered: bool },
}

/// How the integrator goes on after an event.
#[derive(Debug, Clone, Copy, PartialEq, Eq, Structural)]
pub enum PathStep {
    /// Stop and take the background gradient for the ray's direction.
    Background,
    /// Stop and take the hit material's emitted radiance.
    Emission,
    /// Follow the scattered ray at the given depth, weighting what it brings
    /// back by the attenuation.
    Bounce { depth: u32 },
}

/// The step after `event` at `depth` when at most `max_depth` bounces are
/// followed.
pub open spec fn step_spec(depth: nat, max_depth: nat, event: PathEvent) -> PathStep {
    match event {
        PathEvent::Miss => PathStep::Background,
        PathEvent::Hit { scattered } => if scattered && depth < max_depth {
            PathStep::Bounce { depth: (depth + 1) as u32 }
        } else {
            PathStep::Emission
        },
    }
}

/// Decides how the path that reached `depth` goes on after `event`: a miss
/// ends on the background; a scattered hit below `max_depth` bounces one level
/// deeper; any other hit ends on the material's emission.
pub fn next_step(depth: u32, max_depth: u32, event: PathEvent) -> (r: PathStep)
    ensures
        r == step_spec(depth as nat, max_depth as nat, event),
{
    match event {
        PathEvent::Miss => PathStep::Background,
        PathEvent::Hit { scattered } => {
            if scattered && depth < max_depth {
                PathStep::Bounce { depth: depth + 1 }
            } else {
                PathStep::Emission
            }
        },
    }
}

/// The number of hit tests that a path starting at `depth` makes when the
/// tests report `events` in turn (a path that outlives `events` is counted
/// up to their end).
pub open spec fn hit_tests(depth: nat, max_depth: nat, events: Seq<PathEvent>) -> nat
    decreases events.len(),
{
    if events.len() == 0 {
        0
    } else {
        match step_spec(depth, max_depth, events[0]) {
            PathStep::Bounce { depth: d } => 1 + hit_tests(d as nat, max_depth, events.drop_first()),
            _ => 1,
        }
    }
}

/// A bounce goes exactly one level deeper and never past `max_depth`.
pub proof fn lemma_bounce_deepens(depth: nat, max_depth: nat, event: PathEvent)
    requires
        max_depth <= u32::MAX,
    ensures
        step_spec(depth, max_depth, event) matches PathStep::Bounce { depth: d } ==> d == depth + 1
            && d <= max_depth,
{
}

/// Whatever the scene reports, a path from `depth` makes at most
/// `max_depth - depth + 1` hit tests: the cost of a ray is bounded.
pub proof fn lemma_hit_tests_bounded(depth: nat, max_depth: nat, events: Seq<PathEvent>)
    requires
        depth <= max_depth,
        max_depth <= u32::MAX,
    ensures
        hit_tests(depth, max_depth, events) <= max_depth - depth + 1,
    decreases events.len(),
{
    if events.len() > 0 {
        match step_spec(depth, max_depth, events[0]) {
            PathStep::Bounce { depth: d } => {
                lemma_hit_tests_bounded(d as nat, max_depth, events.drop_first());
            },
            _ => {},
        }
    }
}

} // verus!
