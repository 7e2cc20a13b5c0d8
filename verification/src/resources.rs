//! Once-resolved facts about the host environment: the monitor's geometry
//! and the sprite sheet's pixel size, with the bounds and scale factors
//! derived from them.

use vstd::prelude::*;
use crate::fixed::spec_clamp;
use crate::vec2::{PixelPoint, PixelExtent, Vec2Fx};
use crate::{ATLAS_FRAMES, WINDOW_SIZE_FX};

verus! {

/// Metadata for the atlased sprite texture: the pixel size of the whole
/// sheet, recorded once the asset has finished loading.
#[derive(Clone, Copy, Debug, PartialEq, Eq, Structural)]
pub struct TextureMetadata {
    /// The size of the image in pixels.
    pub size: PixelExtent,
}

impl TextureMetadata {
    /// The pixel size of a single atlas frame: the sheet is one row of
    /// `ATLAS_FRAMES` equal horizontal slices.
    pub fn frame_size(&self) -> (r: PixelExtent)
        ensures
            r.x as int == self.size.x as int / ATLAS_FRAMES as int,
            r.y == self.size.y,
    {
        PixelExtent { x: self.size.x / ATLAS_FRAMES, y: self.size.y }
    }

    /// The fixed-point scale that maps one frame onto the window: the
    /// window side length divided by the frame's pixel size, per axis.
    pub fn sprite_scale(&self) -> (r: Vec2Fx)
        requires
            self.size.x as int / ATLAS_FRAMES as int >= 1,
            self.size.y >= 1,
        ensures
            r.x as int == WINDOW_SIZE_FX as int / (self.size.x as int / ATLAS_FRAMES as int),
            r.y as int == WINDOW_SIZE_FX as int / self.size.y as int,
    {
        let fs: PixelExtent = self.frame_size();
        let sx: u64 = 64000u64 / (fs.x as u64);
        let sy: u64 = 64000u64 / (fs.y as u64);
        Vec2Fx { x: sx as i64, y: sy as i64 }
    }
}

/// The properties of the current display, stored once the monitor
/// geometry has been resolved.
#[derive(Clone, Copy, Debug, PartialEq, Eq, Structural)]
pub struct DisplayProperties {
    /// The display's position on the desktop.
    pub position: PixelPoint,
    /// The display's resolution in pixels.
    pub resolution: PixelExtent,
}

/// An `i32` coordinate plus a non-negative offset, saturating at the top
/// of the `i32` range.
pub open spec fn spec_sat_add(a: int, b: int) -> int {
    spec_clamp(a + b, i32::MIN as int, i32::MAX as int)
}

impl DisplayProperties {
    /// The largest x pixel coordinate on the display (one past the right
    /// edge), saturated to the `i32` range.
    pub open spec fn spec_max_x(self) -> int {
        spec_sat_add(self.position.x as int, self.resolution.x as int)
    }

    /// The largest y pixel coordinate on the display (one past the bottom
    /// edge), saturated to the `i32` range.
    pub open spec fn spec_max_y(self) -> int {
        spec_sat_add(self.position.y as int, self.resolution.y as int)
    }

    /// The smallest position contained within this display.
    pub fn minimum_position(&self) -> (r: PixelPoint)
        ensures
            r == self.position,
    {
        self.position
    }

    /// The largest position contained within this display: the origin
    /// plus the resolution, saturating at the `i32` range.
    pub fn maximum_position(&self) -> (r: PixelPoint)
        ensures
            r.x as int == self.spec_max_x(),
            r.y as int == self.spec_max_y(),
    {
        let mx: i64 = self.position.x as i64 + self.resolution.x as i64;
        let my: i64 = self.position.y as i64 + self.resolution.y as i64;
        let rx: i32 = if mx > 2147483647 { i32::MAX } else { mx as i32 };
        let ry: i32 = if my > 2147483647 { i32::MAX } else { my as i32 };
        PixelPoint { x: rx, y: ry }
    }

    /// The position at the center of this display: the origin plus half
    /// the resolution, saturating at the `i32` range.
    pub fn center_position(&self) -> (r: PixelPoint)
        ensures
            r.x as int == spec_sat_add(self.position.x as int, self.resolution.x as int / 2),
            r.y as int == spec_sat_add(self.position.y as int, self.resolution.y as int / 2),
    {
        let cx: i64 = self.position.x as i64 + (self.resolution.x / 2) as i64;
        let cy: i64 = self.position.y as i64 + (self.resolution.y / 2) as i64;
        let rx: i32 = if cx > 2147483647 { i32::MAX } else { cx as i32 };
        let ry: i32 = if cy > 2147483647 { i32::MAX } else { cy as i32 };
        PixelPoint { x: rx, y: ry }
    }

    /// Whether the display strictly contains the given position.
    pub fn contains(&self, position: PixelPoint) -> (r: bool)
        ensures
            r == ((self.position.x as int) < (position.x as int)
                && self.spec_max_x() > position.x as int
                && (self.position.y as int) < (position.y as int)
                && self.spec_max_y() > position.y as int),
    {
        let maximum: PixelPoint = self.maximum_position();
        self.position.x < position.x && maximum.x > position.x && self.position.y < position.y
            && maximum.y > position.y
    }
}

} // verus!
