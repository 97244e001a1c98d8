//! Verified core of a tesseract visualiser.
//!
//! The visualiser shows a four-dimensional hypercube whose eight cubic cells
//! carry 3x3x3 grids of coloured stickers. It rotates the puzzle in 4D,
//! projects it to 3D, and finds the sticker under the pointer by casting a
//! ray. Everything that is measured in floating point belongs to the host;
//! this crate holds what is exact:
//!
//! - [`camera`]: the limits of the orbital camera;
//! - [`cube`]: the cells and stickers on an integer lattice;
//! - [`instances`]: the flat sticker list that rendering and hit testing index;
//! - [`mesh`]: the corners and triangles of the cube that a sticker is drawn as;
//! - [`rotation`]: the six rotation planes and the layout of their matrices;
//! - [`intersect`]: the comparisons of the ray-box and ray-triangle tests;
//! - [`picking`]: which cells and stickers a hit test counts, and which hit wins;
//! - [`projection`]: which points the projection from 4D to 3D has no image for;
//! - [`input`]: what each pointer and keyboard event leads to;
//! - [`render_mode`]: the shading modes and their names;
//! - [`cubemap`]: cutting a cross-shaped sky image into six faces;
//! - [`scalar`]: the order of single-precision numbers, read off their bit patterns.

pub mod camera;
pub mod cube;
pub mod cubemap;
pub mod input;
pub mod instances;
pub mod intersect;
pub mod mesh;
pub mod picking;
pub mod projection;
pub mod render_mode;
pub mod rotation;
pub mod scalar;
