//! Topological core of a boundary-representation modeling kernel.
//!
//! The library models a 3D shape as a graph of surfaces, curves, vertices,
//! edges, cycles and shells.  Every topological entity exists in one of two
//! states: a fully built, identity-bearing object held behind a [`storage::Handle`],
//! or a partially specified builder value whose fields are filled in
//! incrementally.  The [`partial::MaybePartial`] sum type lets consumers hold
//! either state in one slot; merging, building and transforming work uniformly
//! across both states.
//!
//! All geometry is carried in exact integer coordinates.  Floating-point
//! evaluation (trigonometry, normalization, tolerance-based comparison) is the
//! business of the rendering and math backends that sit outside this library.

pub mod math;
pub mod mesh;
pub mod objects;
pub mod partial;
pub mod builder;
pub mod ext;
pub mod watch;
pub mod transform;
pub mod polygon;
pub mod storage;
