//! The motion integrator: advances one shape by an elapsed time and
//! reflects its velocity off the simulation-area boundaries.
//!
//! Coordinates are integer simulation units; elapsed time is integer
//! milliseconds, and a velocity is in units per second, so one step
//! advances each axis by `velocity * dt_ms / 1000` (truncated).

use vstd::prelude::*;
use crate::shapes::{Color, DemoError, ShapeKind, ShapeType, color_name_spec, parse_color_spec};

verus! {

/// Positions are kept inside this bound; a step clamps into it, so the
/// arithmetic below stays far from `i64` overflow.
pub const POS_LIMIT: i64 = 1_000_000_000_000_000_000;

/// Largest velocity magnitude a well-formed shape may carry, in units per
/// second.
pub const VEL_LIMIT: i64 = 1_000_000;

/// Largest size magnitude a well-formed shape may carry; every `i32` wire
/// size fits.
pub const SIZE_LIMIT: i64 = 2_147_483_648;

/// Largest elapsed time one step accepts: one day in milliseconds.
pub const DT_LIMIT_MS: u64 = 86_400_000;

/// Largest extent of the simulation-area rectangle.
pub const RECT_LIMIT: i64 = 1_000_000_000;

/// A 2D point or vector in integer simulation units.
#[derive(Clone, Copy, Debug, PartialEq, Eq, Structural)]
pub struct Vec2 {
    pub x: i64,
    pub y: i64,
}

/// One simulated shape: identity (kind and color), position, extent and
/// velocity. Remote shapes are carried with zero velocity.
#[derive(Clone, Copy, Debug, PartialEq, Eq, Structural)]
pub struct MovingShapeObject {
    pub kind: ShapeKind,
    pub color: Color,
    pub position: Vec2,
    pub size: i64,
    pub velocity: Vec2,
}

/// Half the shape's extent; a non-positive size shrinks the area by
/// nothing.
pub open spec fn half_size(size: int) -> int {
    if size <= 0 {
        0
    } else {
        size / 2
    }
}

/// The low edge (left or top) of the boundary shrunk inward by half the
/// shape's size.
pub open spec fn lo_edge(size: int) -> int {
    half_size(size)
}

/// The high edge (right or bottom) of the shrunk boundary, clamped so the
/// effective rectangle never inverts when the shape outgrows the area.
pub open spec fn hi_edge(extent: int, size: int) -> int {
    if extent - half_size(size) < half_size(size) {
        half_size(size)
    } else {
        extent - half_size(size)
    }
}

impl MovingShapeObject {
    /// Bounds under which one integrator step is exact and overflow-free.
    pub open spec fn well_formed(self) -> bool {
        &&& -POS_LIMIT <= self.position.x <= POS_LIMIT
        &&& -POS_LIMIT <= self.position.y <= POS_LIMIT
        &&& -VEL_LIMIT <= self.velocity.x <= VEL_LIMIT
        &&& -VEL_LIMIT <= self.velocity.y <= VEL_LIMIT
        &&& -SIZE_LIMIT <= self.size <= SIZE_LIMIT
    }
}

pub open spec fn valid_rect(rect: Vec2) -> bool {
    &&& 0 <= rect.x <= RECT_LIMIT
    &&& 0 <= rect.y <= RECT_LIMIT
}

/// The four boundary tests, in the documented priority order: left,
/// right, top, bottom; at most one holds, so one step corrects one axis.
pub open spec fn past_left(s: MovingShapeObject) -> bool {
    s.position.x < lo_edge(s.size as int)
}

pub open spec fn past_right(s: MovingShapeObject, rect: Vec2) -> bool {
    !past_left(s) && s.position.x > hi_edge(rect.x as int, s.size as int)
}

pub open spec fn past_top(s: MovingShapeObject, rect: Vec2) -> bool {
    !past_left(s) && !past_right(s, rect) && s.position.y < lo_edge(s.size as int)
}

pub open spec fn past_bottom(s: MovingShapeObject, rect: Vec2) -> bool {
    !past_left(s) && !past_right(s, rect) && !past_top(s, rect) && s.position.y > hi_edge(
        rect.y as int,
        s.size as int,
    )
}

/// The x coordinate after boundary correction, before the advance.
pub open spec fn corrected_x(s: MovingShapeObject, rect: Vec2) -> int {
    if past_left(s) {
        lo_edge(s.size as int)
    } else if past_right(s, rect) {
        hi_edge(rect.x as int, s.size as int)
    } else {
        s.position.x as int
    }
}

/// The y coordinate after boundary correction, before the advance.
pub open spec fn corrected_y(s: MovingShapeObject, rect: Vec2) -> int {
    if past_top(s, rect) {
        lo_edge(s.size as int)
    } else if past_bottom(s, rect) {
        hi_edge(rect.y as int, s.size as int)
    } else {
        s.position.y as int
    }
}

/// The horizontal velocity after reflection: a hit on the left or right
/// edge flips its sign, nothing else touches it.
pub open spec fn vel_x_after(s: MovingShapeObject, rect: Vec2) -> int {
    if past_left(s) || past_right(s, rect) {
        -(s.velocity.x as int)
    } else {
        s.velocity.x as int
    }
}

/// The vertical velocity after reflection: a hit on the top or bottom
/// edge flips its sign, nothing else touches it.
pub open spec fn vel_y_after(s: MovingShapeObject, rect: Vec2) -> int {
    if past_top(s, rect) || past_bottom(s, rect) {
        -(s.velocity.y as int)
    } else {
        s.velocity.y as int
    }
}

/// How far one axis advances in `dt_ms` milliseconds at `v` units per
/// second, truncating toward zero.
pub open spec fn step_delta(v: int, dt_ms: int) -> int {
    if v >= 0 {
        v * dt_ms / 1000
    } else {
        -((-v) * dt_ms / 1000)
    }
}

pub open spec fn clamp_coord(p: int) -> int {
    if p < -POS_LIMIT {
        -POS_LIMIT as int
    } else if p > POS_LIMIT {
        POS_LIMIT as int
    } else {
        p
    }
}

/// The x coordinate one full step produces.
pub open spec fn next_x(s: MovingShapeObject, rect: Vec2, dt_ms: int) -> int {
    clamp_coord(corrected_x(s, rect) + step_delta(vel_x_after(s, rect), dt_ms))
}

/// The y coordinate one full step produces.
pub open spec fn next_y(s: MovingShapeObject, rect: Vec2, dt_ms: int) -> int {
    clamp_coord(corrected_y(s, rect) + step_delta(vel_y_after(s, rect), dt_ms))
}

/// The whole shape one integrator step produces: identity and size kept,
/// position corrected then advanced, velocity possibly reflected.
pub open spec fn moved_shape(s: MovingShapeObject, rect: Vec2, dt_ms: int) -> MovingShapeObject {
    MovingShapeObject {
        kind: s.kind,
        color: s.color,
        size: s.size,
        position: Vec2 { x: next_x(s, rect, dt_ms) as i64, y: next_y(s, rect, dt_ms) as i64 },
        velocity: Vec2 { x: vel_x_after(s, rect) as i64, y: vel_y_after(s, rect) as i64 },
    }
}

/// Saturates a coordinate into the `i32` range the wire type carries.
pub open spec fn clamp_i32(p: int) -> int {
    if p < -2147483648 {
        -2147483648
    } else if p > 2147483647 {
        2147483647
    } else {
        p
    }
}

fn clamp_coord_exec(p: i64) -> (r: i64)
    ensures
        r as int == clamp_coord(p as int),
{
    if p < -POS_LIMIT {
        -POS_LIMIT
    } else if p > POS_LIMIT {
        POS_LIMIT
    } else {
        p
    }
}

fn clamp_i32_exec(p: i64) -> (r: i32)
    ensures
        r as int == clamp_i32(p as int),
{
    if p < -2147483648 {
        -2147483648
    } else if p > 2147483647 {
        2147483647
    } else {
        p as i32
    }
}

fn step_delta_exec(v: i64, dt_ms: u64) -> (r: i64)
    requires
        -VEL_LIMIT <= v <= VEL_LIMIT,
        dt_ms <= DT_LIMIT_MS,
    ensures
        r as int == step_delta(v as int, dt_ms as int),
        -86_400_000_000 <= r <= 86_400_000_000,
{
    proof {
        assert((if v >= 0 { v as int } else { -v as int }) * (dt_ms as int) <= 1_000_000
            * 86_400_000) by (nonlinear_arith)
            requires
                -1_000_000 <= v as int <= 1_000_000,
                0 <= dt_ms as int <= 86_400_000,
        ;
        assert((if v >= 0 { v as int } else { -v as int }) * (dt_ms as int) >= 0)
            by (nonlinear_arith)
            requires
                -1_000_000 <= v as int <= 1_000_000,
                0 <= dt_ms as int,
        ;
    }
    if v >= 0 {
        let prod: u64 = (v as u64) * dt_ms;
        let d: u64 = prod / 1000;
        d as i64
    } else {
        let prod: u64 = ((-v) as u64) * dt_ms;
        let d: u64 = prod / 1000;
        -(d as i64)
    }
}

impl MovingShapeObject {
    /// Runtime check of `well_formed`, for callers outside the verified
    /// world that must test it before relying on a contract.
    pub fn is_well_formed(&self) -> (b: bool)
        ensures
            b == self.well_formed(),
    {
        -POS_LIMIT <= self.position.x && self.position.x <= POS_LIMIT && -POS_LIMIT
            <= self.position.y && self.position.y <= POS_LIMIT && -VEL_LIMIT <= self.velocity.x
            && self.velocity.x <= VEL_LIMIT && -VEL_LIMIT <= self.velocity.y && self.velocity.y
            <= VEL_LIMIT && -SIZE_LIMIT <= self.size && self.size <= SIZE_LIMIT
    }

    /// Builds a simulated shape from a wire sample and a velocity; a
    /// color outside the palette is rejected with a typed error.
    pub fn from_shape_type(kind: ShapeKind, shape_type: &ShapeType, velocity: Vec2) -> (r: Result<
        MovingShapeObject,
        DemoError,
    >)
        requires
            -VEL_LIMIT <= velocity.x <= VEL_LIMIT,
            -VEL_LIMIT <= velocity.y <= VEL_LIMIT,
        ensures
            r == match parse_color_spec(shape_type.color@) {
                Some(c) => Ok::<MovingShapeObject, DemoError>(
                    MovingShapeObject {
                        kind,
                        color: c,
                        position: Vec2 { x: shape_type.x as i64, y: shape_type.y as i64 },
                        size: shape_type.shapesize as i64,
                        velocity,
                    },
                ),
                None => Err::<MovingShapeObject, DemoError>(DemoError::UnknownColor),
            },
            r matches Ok(s) ==> s.well_formed(),
    {
        let color = match Color::from_name(shape_type.color.as_str()) {
            Ok(c) => c,
            Err(e) => {
                return Err(e);
            },
        };
        Ok(
            MovingShapeObject {
                kind,
                color,
                position: Vec2 { x: shape_type.x as i64, y: shape_type.y as i64 },
                size: shape_type.shapesize as i64,
                velocity,
            },
        )
    }

    /// The wire form of this shape: the color's palette name and the
    /// coordinates saturated into the `i32` range.
    pub fn to_shape_type(&self) -> (r: ShapeType)
        ensures
            r.color@ == color_name_spec(self.color),
            r.x as int == clamp_i32(self.position.x as int),
            r.y as int == clamp_i32(self.position.y as int),
            r.shapesize as int == clamp_i32(self.size as int),
    {
        ShapeType {
            color: self.color.as_str().to_owned(),
            x: clamp_i32_exec(self.position.x),
            y: clamp_i32_exec(self.position.y),
            shapesize: clamp_i32_exec(self.size),
        }
    }

    /// One integrator step: test the position against the shrunk
    /// boundary in the order left, right, top, bottom; clamp the first
    /// offending coordinate and flip that axis of the velocity; then
    /// advance by the post-reflection velocity times the elapsed time.
    pub fn move_within_rect(&mut self, rect_size: Vec2, dt_ms: u64)
        requires
            old(self).well_formed(),
            valid_rect(rect_size),
            dt_ms <= DT_LIMIT_MS,
        ensures
            *final(self) == moved_shape(*old(self), rect_size, dt_ms as int),
            final(self).well_formed(),
    {
        let size = self.size;
        let half: i64 = if size <= 0 {
            0
        } else {
            ((size as u64) / 2) as i64
        };
        assert(half as int == half_size(size as int));
        let lo = half;
        let hi_x: i64 = if rect_size.x - half < half {
            half
        } else {
            rect_size.x - half
        };
        let hi_y: i64 = if rect_size.y - half < half {
            half
        } else {
            rect_size.y - half
        };
        assert(hi_x as int == hi_edge(rect_size.x as int, size as int));
        assert(hi_y as int == hi_edge(rect_size.y as int, size as int));

        if self.position.x < lo {
            self.position.x = lo;
            self.velocity.x = -self.velocity.x;
        } else if self.position.x > hi_x {
            self.position.x = hi_x;
            self.velocity.x = -self.velocity.x;
        } else if self.position.y < lo {
            self.position.y = lo;
            self.velocity.y = -self.velocity.y;
        } else if self.position.y > hi_y {
            self.position.y = hi_y;
            self.velocity.y = -self.velocity.y;
        }
        assert(self.position.x as int == corrected_x(*old(self), rect_size));
        assert(self.position.y as int == corrected_y(*old(self), rect_size));
        assert(self.velocity.x as int == vel_x_after(*old(self), rect_size));
        assert(self.velocity.y as int == vel_y_after(*old(self), rect_size));

        let dx = step_delta_exec(self.velocity.x, dt_ms);
        let dy = step_delta_exec(self.velocity.y, dt_ms);
        self.position.x = clamp_coord_exec(self.position.x + dx);
        self.position.y = clamp_coord_exec(self.position.y + dy);
    }
}

/// A step with `dt = 0` from a position strictly inside the shrunk
/// boundary moves nothing and keeps the velocity, whatever the velocity
/// is.
pub proof fn lemma_zero_dt_is_identity(s: MovingShapeObject, rect: Vec2)
    requires
        s.well_formed(),
        valid_rect(rect),
        lo_edge(s.size as int) <= s.position.x <= hi_edge(rect.x as int, s.size as int),
        lo_edge(s.size as int) <= s.position.y <= hi_edge(rect.y as int, s.size as int),
    ensures
        moved_shape(s, rect, 0) == s,
{
    assert(step_delta(vel_x_after(s, rect), 0) == 0);
    assert(step_delta(vel_y_after(s, rect), 0) == 0);
}

/// Reflection off the left boundary flips exactly the horizontal
/// velocity component: `(-v, w)` becomes `(v, w)`.
pub proof fn lemma_left_reflection(s: MovingShapeObject, rect: Vec2)
    requires
        s.well_formed(),
        valid_rect(rect),
        past_left(s),
    ensures
        vel_x_after(s, rect) == -(s.velocity.x as int),
        vel_y_after(s, rect) == s.velocity.y as int,
{
}

} // verus!
