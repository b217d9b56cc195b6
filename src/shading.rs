//! The color estimator as a step machine.
//!
//! The estimator follows one light path: while bounces remain, it tests the
//! current ray against the scene. A hit scatters a new ray from the hit point
//! and costs one bounce; each scatter halves the light that the rest of the
//! path brings back (a fixed albedo of one half). A miss ends the path with the
//! sky gradient along the ray's direction. A path that runs out of bounces
//! carries no light.
//!
//! The renderer owns the rays and the scene; it hands `ray_color` whether the
//! current ray hit, and performs what the returned `Step` asks for.

use vstd::prelude::*;

use crate::scene::no_hit;

verus! {

/// Where the estimator stands along a path: the bounces it may still make and
/// those it has made.
#[derive(Clone, Copy, Debug, PartialEq, Eq, Structural)]
pub struct PathState {
    pub depth: i32,
    pub bounces: u32,
}

/// The light that a finished path brings back.
#[derive(Clone, Copy, Debug, PartialEq, Eq, Structural)]
pub enum Radiance {
    /// No light: the bounce budget ran out.
    Black,
    /// The sky gradient along the escaping ray's direction, halved once for
    /// each of `halvings` bounces.
    Sky { halvings: u32 },
}

/// What the renderer does next with the current ray.
#[derive(Clone, Copy, Debug, PartialEq, Eq, Structural)]
pub enum Step {
    /// The path is finished with this light.
    Done(Radiance),
    /// Scatter from the hit point and go on from this state.
    Bounce(PathState),
}

impl View for Radiance {
    /// `None` for no light; `Some(k)` for the sky halved `k` times.
    type V = Option<nat>;

    open spec fn view(&self) -> Option<nat> {
        match *self {
            Radiance::Black => None,
            Radiance::Sky { halvings } => Some(halvings as nat),
        }
    }
}

impl PathState {
    /// The bounces still allowed and those made never add up beyond `i32::MAX`,
    /// so that counting bounces cannot overflow.
    pub open spec fn wf(&self) -> bool {
        self.depth as int + self.bounces as int <= i32::MAX as int
    }

    /// The state of a path that has not bounced yet.
    pub fn new(depth: i32) -> (r: PathState)
        ensures
            r == (PathState { depth, bounces: 0 }),
            r.wf(),
    {
        PathState { depth, bounces: 0 }
    }

    /// Whether the bounce budget is spent; the current ray then need not be
    /// tested against the scene.
    pub fn spent(&self) -> (r: bool)
        ensures
            r == (self.depth <= 0),
    {
        self.depth <= 0
    }
}

/// One step of the estimator from `s`, where `hit` tells whether the current
/// ray strikes the scene.
pub open spec fn step(s: PathState, hit: bool) -> Step {
    if s.depth <= 0 {
        Step::Done(Radiance::Black)
    } else if hit {
        Step::Bounce(PathState { depth: (s.depth - 1) as i32, bounces: (s.bounces + 1) as u32 })
    } else {
        Step::Done(Radiance::Sky { halvings: s.bounces })
    }
}

/// Decides what the estimator does with the current ray of a path in state
/// `s`: nothing more once the budget is spent, a scatter on a hit, the sky on
/// a miss. `hit` is not read when the budget is spent.
pub fn ray_color(s: PathState, hit: bool) -> (r: Step)
    requires
        s.wf(),
    ensures
        r == step(s, hit),
        r matches Step::Bounce(n) ==> n.wf(),
{
    if s.depth <= 0 {
        Step::Done(Radiance::Black)
    } else if hit {
        Step::Bounce(PathState { depth: s.depth - 1, bounces: s.bounces + 1 })
    } else {
        Step::Done(Radiance::Sky { halvings: s.bounces })
    }
}

/// The recursive estimator, on the outcomes of the successive rays of a path
/// (`hits[i]` tells whether ray `i` struck the scene): no light once the
/// budget is spent; on a hit, half of what the scattered ray brings back with
/// one bounce less; on a miss, the sky. A path whose outcomes run out before
/// a miss brings no light.
pub open spec fn estimate(depth: int, hits: Seq<bool>) -> Option<nat>
    decreases hits.len(),
{
    if depth <= 0 || hits.len() == 0 {
        None
    } else if hits[0] {
        match estimate(depth - 1, hits.drop_first()) {
            None => None,
            Some(k) => Some(k + 1),
        }
    } else {
        Some(0)
    }
}

/// The light found by following the steps of `ray_color` from `s` on the
/// outcomes `hits`.
pub open spec fn trace(s: PathState, hits: Seq<bool>) -> Radiance
    decreases hits.len(),
{
    if hits.len() == 0 {
        Radiance::Black
    } else {
        match step(s, hits[0]) {
            Step::Done(r) => r,
            Step::Bounce(n) => trace(n, hits.drop_first()),
        }
    }
}

/// `k` more halvings on top of a light.
pub open spec fn halved(l: Option<nat>, k: nat) -> Option<nat> {
    match l {
        None => None,
        Some(h) => Some(h + k),
    }
}

proof fn lemma_trace_from(s: PathState, hits: Seq<bool>)
    requires
        s.wf(),
    ensures
        trace(s, hits)@ == halved(estimate(s.depth as int, hits), s.bounces as nat),
    decreases hits.len(),
{
    if hits.len() > 0 && s.depth > 0 && hits[0] {
        let n = PathState { depth: (s.depth - 1) as i32, bounces: (s.bounces + 1) as u32 };
        lemma_trace_from(n, hits.drop_first());
    }
}

/// Driving the estimator step by step gives, for every path, the light of the
/// recursive estimator.
pub proof fn lemma_steps_follow_recursion(depth: i32, hits: Seq<bool>)
    ensures
        trace(PathState { depth, bounces: 0 }, hits)@ == estimate(depth as int, hits),
{
    lemma_trace_from(PathState { depth, bounces: 0 }, hits);
}

/// With no bounce left, a path brings no light, whatever the ray and the scene.
pub proof fn lemma_no_budget_is_black(depth: i32, hits: Seq<bool>)
    requires
        depth <= 0,
    ensures
        trace(PathState { depth, bounces: 0 }, hits) == Radiance::Black,
        estimate(depth as int, hits) is None,
{
}

/// In a scene with no primitives nothing is hit, and with any bounce budget
/// the first ray of every path shows the sky, not halved.
pub proof fn lemma_empty_scene_shows_sky(depth: i32, scene: Seq<Option<u64>>, later: Seq<bool>)
    requires
        depth > 0,
        scene.len() == 0,
    ensures
        no_hit(scene),
        trace(PathState { depth, bounces: 0 }, seq![!no_hit(scene)] + later)
            == (Radiance::Sky { halvings: 0 }),
{
    let hits = seq![!no_hit(scene)] + later;
    assert(hits[0] == false);
}

} // verus!
