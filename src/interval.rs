//! Choices on the ray's parameter: which crossing of a surface a hit reports,
//! and the stretch that a ray spends inside a box (the slab method).
//!
//! Parameters are given as order keys: a smaller parameter has a smaller key.
//! The renderer maps each double to such a key; the decisions below depend on
//! the order of the parameters alone.

use vstd::prelude::*;

verus! {

/// The stretch of the ray between two crossings of a surface, `near` first.
#[derive(Clone, Copy, Debug, PartialEq, Eq, Structural)]
pub struct Span {
    pub near: u64,
    pub far: u64,
}

/// Which crossing of a surface a hit reports.
#[derive(Clone, Copy, Debug, PartialEq, Eq, Structural)]
pub enum Crossing {
    Near,
    Far,
}

/// Whether `t` lies in the searched interval (t_min, t_max].
pub open spec fn in_range(t: u64, t_min: u64, t_max: u64) -> bool {
    t_min < t && t <= t_max
}

/// The crossing that a hit reports: the near one when it is in range, else
/// the far one when that is, else none.
pub fn first_crossing(span: Span, t_min: u64, t_max: u64) -> (r: Option<Crossing>)
    ensures
        in_range(span.near, t_min, t_max) ==> r == Some(Crossing::Near),
        !in_range(span.near, t_min, t_max) && in_range(span.far, t_min, t_max) ==> r == Some(
            Crossing::Far,
        ),
        !in_range(span.near, t_min, t_max) && !in_range(span.far, t_min, t_max) ==> r is None,
{
    if t_min < span.near && span.near <= t_max {
        Some(Crossing::Near)
    } else if t_min < span.far && span.far <= t_max {
        Some(Crossing::Far)
    } else {
        None
    }
}

/// The stretch common to the spans of all axes, with the axis whose face the
/// ray enters through and the one whose face it leaves through.
#[derive(Clone, Copy, Debug, PartialEq, Eq, Structural)]
pub struct Overlap {
    pub span: Span,
    pub entry_axis: usize,
    pub exit_axis: usize,
}

/// Whether axis `e` has the latest entry of all, and no earlier axis enters
/// as late.
pub open spec fn is_entry_axis(spans: Seq<Span>, e: int) -> bool {
    &&& 0 <= e < spans.len()
    &&& forall|j: int| 0 <= j < spans.len() ==> spans[j].near <= spans[e].near
    &&& forall|j: int| 0 <= j < e ==> spans[j].near < spans[e].near
}

/// Whether axis `x` has the earliest exit of all, and no earlier axis exits
/// as early.
pub open spec fn is_exit_axis(spans: Seq<Span>, x: int) -> bool {
    &&& 0 <= x < spans.len()
    &&& forall|j: int| 0 <= j < spans.len() ==> spans[x].far <= spans[j].far
    &&& forall|j: int| 0 <= j < x ==> spans[x].far < spans[j].far
}

/// Whether the spans have a point in common: no axis is left before another
/// is entered.
pub open spec fn spans_meet(spans: Seq<Span>) -> bool {
    forall|i: int, j: int| 0 <= i < spans.len() && 0 <= j < spans.len() ==> spans[i].near <= spans[j].far
}

/// Intersects the per-axis spans of a ray through a box; `None` when they
/// have no point in common, or when there is no axis.
pub fn overlap(spans: &Vec<Span>) -> (r: Option<Overlap>)
    ensures
        r is Some <==> spans@.len() > 0 && spans_meet(spans@),
        r matches Some(o) ==> {
            &&& is_entry_axis(spans@, o.entry_axis as int)
            &&& is_exit_axis(spans@, o.exit_axis as int)
            &&& o.span == (Span {
                near: spans@[o.entry_axis as int].near,
                far: spans@[o.exit_axis as int].far,
            })
        },
{
    if spans.len() == 0 {
        return None;
    }
    let mut e: usize = 0;
    let mut x: usize = 0;
    let mut i: usize = 1;
    while i < spans.len()
        invariant
            1 <= i <= spans@.len(),
            is_entry_axis(spans@.take(i as int), e as int),
            is_exit_axis(spans@.take(i as int), x as int),
        decreases spans@.len() - i,
    {
        if spans[e].near < spans[i].near {
            e = i;
        }
        if spans[i].far < spans[x].far {
            x = i;
        }
        i += 1;
        assert(spans@.take(i as int) =~= spans@.take(i - 1).push(spans@[i - 1]));
    }
    assert(spans@.take(i as int) =~= spans@);
    if spans[e].near <= spans[x].far {
        Some(Overlap { span: Span { near: spans[e].near, far: spans[x].far }, entry_axis: e, exit_axis: x })
    } else {
        None
    }
}

} // verus!
