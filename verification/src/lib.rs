//! Verified core of an immediate-mode GUI painter backend: translation of
//! native input events into the GUI's event model, the per-frame input and
//! draw-output state machine, the texture cache, and the cursor manager.
//! The unverified shell around it owns the native window, renderer and GUI
//! context and drives this core with plain values.

pub mod cursor;
pub mod events;
pub mod geom;
pub mod keymap;
pub mod modifiers;
pub mod painter;
pub mod render;
pub mod textures;

use vstd::prelude::*;

verus! {

} // verus!
