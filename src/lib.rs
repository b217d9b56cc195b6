//! Decision logic of a stochastic ray tracer: the bounce budget of the
//! recursive color estimator, the crossing that a surface's hit reports, the
//! slab intersection of a box, and the choice of the nearest hit among the
//! primitives of a scene.
//!
//! The geometry itself (vectors, rays, intersection formulas, colors) is
//! double-precision arithmetic and lives with the renderer that drives these
//! functions; what is proved here is every decision that does not depend on
//! the value of a floating-point result.

pub mod shading;
pub mod interval;
pub mod scene;

pub use shading::{ray_color, PathState, Radiance, Step};
pub use scene::nearest_hit;
pub use interval::{first_crossing, overlap, Crossing, Overlap, Span};
