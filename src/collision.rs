use vstd::prelude::*;

verus! {

/// Marker for the collision query of a frame: the query itself runs in the
/// engine, against the player sprite.
pub struct Collision;

} // verus!
