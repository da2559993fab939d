use vstd::prelude::*;

use crate::engine::{Rect, CANVAS_HEIGHT, SUBPIXELS_PER_PIXEL};

verus! {

/// Thickness in pixels of the terrain bands along the top and the bottom.
pub const BOUNDARY_THICKNESS: i32 = 71;

/// Width in pixels of the boundary colliders: one terrain tile.
pub const BOUNDARY_WIDTH: i32 = 808;

/// Left edge of the player body, in pixels.
pub const PLANE_X: i32 = 88;

/// Width of the player body, in pixels.
pub const PLANE_WIDTH: i32 = 88;

/// Height of the player body, in pixels.
pub const PLANE_HEIGHT: i32 = 73;

/// Names a rigid body inside the physics world. It is a lookup key, not an
/// owner: the world resolves it.
#[derive(Clone, Copy, Debug, PartialEq, Eq)]
pub struct BodyHandle {
    pub index: u32,
    pub generation: u32,
}

/// What the physics world has to do on one tick, in this order: step once,
/// then build the world with its boundaries and the player body, then push
/// the player body upwards.
#[derive(Clone, Copy, Debug, PartialEq, Eq)]
pub struct PhysicsRequest {
    pub step: bool,
    pub create_bodies: bool,
    pub apply_impulse: bool,
}

/// Centre and half extents of a box collider, in subpixels, so that the
/// halves of odd sizes are exact.
#[derive(Clone, Copy, Debug, PartialEq, Eq)]
pub struct ColliderShape {
    pub center_x: i64,
    pub center_y: i64,
    pub half_width: i64,
    pub half_height: i64,
}

impl Rect {
    /// The box collider centred on this region: its half extents are half
    /// the region's size and its centre is the corner plus those halves.
    pub fn collider_shape(&self) -> (r: ColliderShape)
        ensures
            r.half_width == self.width * SUBPIXELS_PER_PIXEL / 2,
            r.half_height == self.height * SUBPIXELS_PER_PIXEL / 2,
            r.center_x == self.x * SUBPIXELS_PER_PIXEL + r.half_width,
            r.center_y == self.y * SUBPIXELS_PER_PIXEL + r.half_height,
            2 * r.half_width == self.width * SUBPIXELS_PER_PIXEL,
            2 * r.half_height == self.height * SUBPIXELS_PER_PIXEL,
    {
        let half_width = self.width as i64 * (SUBPIXELS_PER_PIXEL / 2);
        let half_height = self.height as i64 * (SUBPIXELS_PER_PIXEL / 2);
        ColliderShape {
            center_x: self.x as i64 * SUBPIXELS_PER_PIXEL + half_width,
            center_y: self.y as i64 * SUBPIXELS_PER_PIXEL + half_height,
            half_width,
            half_height,
        }
    }
}

/// The static collider along the bottom of the canvas.
pub fn floor_rect() -> (r: Rect)
    ensures
        r.x == 0,
        r.y == CANVAS_HEIGHT - BOUNDARY_THICKNESS,
        r.width == BOUNDARY_WIDTH,
        r.height == BOUNDARY_THICKNESS,
{
    Rect {
        x: 0,
        y: CANVAS_HEIGHT as i32 - BOUNDARY_THICKNESS,
        width: BOUNDARY_WIDTH,
        height: BOUNDARY_THICKNESS,
    }
}

/// The static collider along the top of the canvas.
pub fn ceiling_rect() -> (r: Rect)
    ensures
        r == (Rect { x: 0, y: 0, width: BOUNDARY_WIDTH, height: BOUNDARY_THICKNESS }),
{
    Rect { x: 0, y: 0, width: BOUNDARY_WIDTH, height: BOUNDARY_THICKNESS }
}

/// The player body's starting region: vertically centred on the canvas,
/// the top edge rounded down to a whole pixel.
pub fn plane_rect() -> (r: Rect)
    ensures
        r.x == PLANE_X,
        r.y == (CANVAS_HEIGHT - PLANE_HEIGHT) / 2,
        r.width == PLANE_WIDTH,
        r.height == PLANE_HEIGHT,
{
    Rect {
        x: PLANE_X,
        y: (CANVAS_HEIGHT as i32 - PLANE_HEIGHT) / 2,
        width: PLANE_WIDTH,
        height: PLANE_HEIGHT,
    }
}

} // verus!
