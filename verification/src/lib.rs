//! An interactive 3D scene sandbox core: a small store of renderable
//! objects, pointer-driven picking and selection, gizmo-driven transform
//! edits, and a shared material color edited through a per-frame control
//! panel.
//!
//! All quantities are fixed-point integers: the constant [`color::UNIT`]
//! stands for the real value 1.0. The engine that renders the scene, reads
//! the pointer and draws the widgets lives outside this crate; it hands
//! the frame tick plain values (ray-cast hits, button edges, slider
//! positions) and reads the store back.

pub mod color;
pub mod frame;
pub mod gizmo;
pub mod panel;
pub mod pick;
pub mod selection;
pub mod store;
pub mod transform;
