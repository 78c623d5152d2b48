//! The closed set of surface kinds a distance-field query can report.

use vstd::prelude::*;

verus! {

/// What the nearest feature of the scene is at a queried point, or what a
/// marched ray ended on.
///
/// `Escaped` is reported only by the marcher, when a ray leaves the scene's
/// distance budget without striking anything; a field query itself always
/// reports one of the three materials.
#[derive(Clone, Copy, Debug, PartialEq, Eq, Structural)]
pub enum HitType {
    /// The ray exceeded the travel budget without meeting a surface.
    Escaped,
    /// A glyph stroke: a perfect mirror.
    Letter,
    /// The room shell, ceiling recess or a ceiling beam: a diffuse surface.
    Wall,
    /// The emissive plane above the room.
    Sun,
}

} // verus!
