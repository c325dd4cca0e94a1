//! Shadow directions and their offsets.

use vstd::prelude::*;

verus! {

/// The direction a drop shadow falls.
#[derive(Debug, Clone, Copy, PartialEq, Eq, Hash, Structural)]
pub enum ShadowDirection {
    Center,
    Down,
    Up,
    Left,
    Right,
    DownLeft,
    DownRight,
    UpLeft,
    UpRight,
}

impl ShadowDirection {
    /// The variant a missing setting takes.
    pub open spec fn spec_default() -> ShadowDirection {
        ShadowDirection::Down
    }
}

impl Default for ShadowDirection {
    fn default() -> (r: Self)
        ensures
            r == ShadowDirection::Down,
    {
        ShadowDirection::Down
    }
}

/// A shadow's offset in pixels.
#[derive(Debug, Clone, Copy, PartialEq, Eq, Default, Structural)]
pub struct ShadowDirectionOffset {
    pub x: i32,
    pub y: i32,
}

/// The offset of a shadow falling in `dir`: two pixels along each axis it leans to.
pub open spec fn spec_shadow_direction_offset(dir: ShadowDirection) -> (int, int) {
    match dir {
        ShadowDirection::Center => (0, 0),
        ShadowDirection::Down => (0, 2),
        ShadowDirection::Up => (0, -2),
        ShadowDirection::Left => (-2, 0),
        ShadowDirection::Right => (2, 0),
        ShadowDirection::DownLeft => (-2, 2),
        ShadowDirection::DownRight => (2, 2),
        ShadowDirection::UpLeft => (-2, -2),
        ShadowDirection::UpRight => (2, -2),
    }
}

/// The pixel offset of a shadow falling in `dir`.
pub fn shadow_direction_offset(dir: ShadowDirection) -> (r: ShadowDirectionOffset)
    ensures
        (r.x as int, r.y as int) == spec_shadow_direction_offset(dir),
{
    match dir {
        ShadowDirection::Center => ShadowDirectionOffset { x: 0, y: 0 },
        ShadowDirection::Down => ShadowDirectionOffset { x: 0, y: 2 },
        ShadowDirection::Up => ShadowDirectionOffset { x: 0, y: -2 },
        ShadowDirection::Left => ShadowDirectionOffset { x: -2, y: 0 },
        ShadowDirection::Right => ShadowDirectionOffset { x: 2, y: 0 },
        ShadowDirection::DownLeft => ShadowDirectionOffset { x: -2, y: 2 },
        ShadowDirection::DownRight => ShadowDirectionOffset { x: 2, y: 2 },
        ShadowDirection::UpLeft => ShadowDirectionOffset { x: -2, y: -2 },
        ShadowDirection::UpRight => ShadowDirectionOffset { x: 2, y: -2 },
    }
}

} // verus!
