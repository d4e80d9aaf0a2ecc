//! Cameras.

use vstd::prelude::*;

verus! {

/// A camera.
pub struct Camera {}

/// A view of a scene.
pub struct View {}

} // verus!
