//! Static collision geometry for level assembly.
//!
//! The library turns a mesh's triangle soup — per-surface vertex and index
//! buffers, together with the owning scene node's world transform — into a
//! validated, immutable-after-build collection of collision triangles that a
//! physics world can take ownership of.
//!
//! Geometry is carried in exact integer world units, so the degeneracy test
//! (a zero cross product) is exact: a triangle is rejected precisely when its
//! three corners are collinear or two of them coincide.  Everything that
//! touches disk or instantiates models lives outside this crate; the crate
//! receives plain buffers and scene data and proves what it does with them.

pub mod extract;
pub mod geometry;
pub mod level;
pub mod math;
pub mod pool;
pub mod scene;
pub mod transform;
pub mod triangle;
