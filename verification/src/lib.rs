//! A wireframe polyhedron viewer, modelled in fixed-point arithmetic.
//!
//! The library owns the whole transform pipeline of the viewer: an
//! orientation quaternion driven by drag input, an additive pan offset,
//! a clamped zoom factor, the extraction of the unique undirected edges
//! of a polygon mesh, and the perspective projection of those edges onto
//! a canvas.  Every quantity is held in fixed-point integers: model
//! coordinates and quaternion components count `fixed::SCALE`-ths of a
//! unit, screen quantities count thousandths of a pixel.  The host loop
//! converts between its own units and these on the way in and out.

pub mod edges;
pub mod fixed;
pub mod project;
pub mod quat;
pub mod viewer;
