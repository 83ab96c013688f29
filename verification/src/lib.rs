//! Synthesis of a decorative raster card from a music track's metadata and
//! its album-art thumbnail: the artwork's dominant colors are clustered into
//! a background palette, the four text fields are measured, wrapped and
//! auto-fitted, and everything is composited onto one canvas that is finally
//! encoded as PNG bytes.

use vstd::prelude::*;

pub mod cards;
pub mod cluster;
pub mod color;
pub mod layout;
pub mod model;
pub mod render;
pub mod text;

verus! {

} // verus!
