//! A layered text-to-voxel parser for a small block diorama, the fixed-point
//! state of an orbit camera that looks at it, and the rules that pick which
//! blocks are mirrored in glass and on the ground.

pub mod block;
pub mod diorama;
pub mod camera;
pub mod scene;
