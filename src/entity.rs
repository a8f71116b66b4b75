//! The entities of the arena: demons, the bean, the safe zone and the pointer.
use vstd::prelude::*;

use crate::rng::{random_integer, random_integer_spec};

verus! {

/// Width and height of a demon.
pub const DEMON_SIZE: i32 = 10;

/// Radius of the bean.
pub const BEAN_RADIUS: i32 = 10;

/// `2·length` for a velocity draw, whose `length` is 2.
pub const VELOCITY_TWICE_LENGTH: u32 = 4;

/// `v` clamped to the range of `i32`.
pub open spec fn clamp_i32(v: int) -> int {
    if v > i32::MAX {
        i32::MAX as int
    } else if v < i32::MIN {
        i32::MIN as int
    } else {
        v
    }
}

/// Adds two `i32` values, saturating at the bounds of `i32`.
pub fn saturating_add_i32(a: i32, b: i32) -> (r: i32)
    ensures
        r == clamp_i32(a + b),
{
    let s: i64 = a as i64 + b as i64;
    if s > i32::MAX as i64 {
        i32::MAX
    } else if s < i32::MIN as i64 {
        i32::MIN
    } else {
        s as i32
    }
}

/// The uniform samples that spawning one demon consumes: one for each
/// coordinate of its position and of its velocity.
#[derive(Clone, Copy, Debug, PartialEq, Eq)]
pub struct SpawnDraw {
    pub x: u32,
    pub y: u32,
    pub dx: u32,
    pub dy: u32,
}

/// The two uniform samples of a velocity reroll.
#[derive(Clone, Copy, Debug, PartialEq, Eq)]
pub struct VelocityDraw {
    pub dx: u32,
    pub dy: u32,
}

/// A demon: a position, a fixed size and a velocity.
#[derive(Clone, Copy, Debug, PartialEq, Eq)]
pub struct Demon {
    pub x: i32,
    pub y: i32,
    pub width: i32,
    pub height: i32,
    pub dx: i32,
    pub dy: i32,
}

/// The player's bean.
#[derive(Clone, Copy, Debug, PartialEq, Eq)]
pub struct Bean {
    pub x: i32,
    pub y: i32,
    pub radius: i32,
}

/// The safe zone at the centre of the arena.
#[derive(Clone, Copy, Debug, PartialEq, Eq)]
pub struct Circle {
    pub x: i32,
    pub y: i32,
    pub radius: i32,
}

/// The latest pointer position reported by the host, in viewport coordinates.
#[derive(Clone, Copy, Debug, PartialEq, Eq)]
pub struct UserInput {
    pub mouse_x: i32,
    pub mouse_y: i32,
}

/// Spawn coordinate: `randomInt(dimension / 2) + dimension / 2`.
pub open spec fn spawn_coordinate(dimension: int, sample: u32) -> int {
    random_integer_spec(dimension, sample as int) + dimension / 2
}

/// A velocity component drawn from `sample`.
pub open spec fn velocity_of(sample: u32) -> int {
    random_integer_spec(VELOCITY_TWICE_LENGTH as int, sample as int)
}

impl Demon {
    /// Velocities are never `i32::MIN`, so that they can always be negated.
    pub open spec fn wf(self) -> bool {
        self.dx != i32::MIN && self.dy != i32::MIN
    }

    /// The `x` the demon would reach with its current velocity.
    pub open spec fn next_x(self) -> int {
        clamp_i32(self.x + self.dx)
    }

    /// The `y` the demon would reach with its current velocity.
    pub open spec fn next_y(self) -> int {
        clamp_i32(self.y + self.dy)
    }

    /// The demon with its velocity components replaced by `dx` and `dy`.
    pub open spec fn with_velocity(self, dx: int, dy: int) -> Demon {
        Demon { dx: dx as i32, dy: dy as i32, ..self }
    }

    /// Velocity after the walls and the bean have answered the demon's
    /// prospective position; the position itself is not moved.
    pub open spec fn responded(self, bean: Bean, arena_width: int, arena_height: int) -> Demon {
        let dx1 = if leaves_range(self.next_x(), arena_width - self.width) {
            -self.dx
        } else {
            self.dx as int
        };
        let dy1 = if leaves_range(self.next_y(), arena_height - self.height) {
            -self.dy
        } else {
            self.dy as int
        };
        if bean.bands(self.next_x(), self.next_y()) {
            self.with_velocity(-dx1, -dy1)
        } else {
            self.with_velocity(dx1, dy1)
        }
    }

    /// A motionless demon draws a new velocity; any other is left as it is.
    pub open spec fn rerolled(self, draw: VelocityDraw) -> Demon {
        if self.dx == 0 && self.dy == 0 {
            self.with_velocity(velocity_of(draw.dx), velocity_of(draw.dy))
        } else {
            self
        }
    }

    /// The demon moved by its velocity, saturating at the bounds of `i32`.
    pub open spec fn moved(self) -> Demon {
        Demon { x: self.next_x() as i32, y: self.next_y() as i32, ..self }
    }

    /// Spawns a demon in an arena of the given size: its position is drawn
    /// around the arena's centre, its velocity from `[-2, 2]`.
    pub fn new(canvas_width: i32, canvas_height: i32, draw: SpawnDraw) -> (r: Self)
        requires
            canvas_width >= 0,
            canvas_height >= 0,
        ensures
            r.x == spawn_coordinate(canvas_width as int, draw.x),
            r.y == spawn_coordinate(canvas_height as int, draw.y),
            r.width == DEMON_SIZE,
            r.height == DEMON_SIZE,
            r.dx == velocity_of(draw.dx),
            r.dy == velocity_of(draw.dy),
            r.wf(),
            0 <= r.x <= canvas_width,
            0 <= r.y <= canvas_height,
    {
        let ox = random_integer(canvas_width as u32, draw.x);
        let oy = random_integer(canvas_height as u32, draw.y);
        let dx = random_integer(VELOCITY_TWICE_LENGTH, draw.dx);
        let dy = random_integer(VELOCITY_TWICE_LENGTH, draw.dy);
        Demon {
            x: ox + canvas_width / 2,
            y: oy + canvas_height / 2,
            width: DEMON_SIZE,
            height: DEMON_SIZE,
            dx,
            dy,
        }
    }

    /// Whether the demon stands still.
    pub fn stopped(&self) -> (r: bool)
        ensures
            r == (self.dx == 0 && self.dy == 0),
    {
        (self.dx == 0) && (self.dy == 0)
    }

    /// Draws a fresh velocity for the demon.
    pub fn panic(&mut self, draw: VelocityDraw)
        ensures
            *final(self) == old(self).with_velocity(velocity_of(draw.dx), velocity_of(draw.dy)),
            final(self).wf(),
    {
        self.dx = random_integer(VELOCITY_TWICE_LENGTH, draw.dx);
        self.dy = random_integer(VELOCITY_TWICE_LENGTH, draw.dy);
    }

    /// Answers the walls and the bean, then rerolls a motionless velocity.
    pub fn respond(&mut self, bean: &Bean, arena_width: i32, arena_height: i32, draw: VelocityDraw)
        requires
            old(self).wf(),
        ensures
            *final(self) == old(self).responded(*bean, arena_width as int, arena_height as int).rerolled(draw),
            final(self).wf(),
    {
        let next_x = saturating_add_i32(self.x, self.dx);
        let next_y = saturating_add_i32(self.y, self.dy);
        if next_x as i64 > arena_width as i64 - self.width as i64 || next_x < 0 {
            self.dx = -self.dx;
        }
        if next_y as i64 > arena_height as i64 - self.height as i64 || next_y < 0 {
            self.dy = -self.dy;
        }
        if bean.hit_by(next_x, next_y) {
            self.dx = -self.dx;
            self.dy = -self.dy;
        }
        if self.stopped() {
            self.panic(draw);
        }
    }

    /// Moves the demon by its velocity.
    pub fn advance(&mut self)
        ensures
            *final(self) == old(self).moved(),
    {
        self.x = saturating_add_i32(self.x, self.dx);
        self.y = saturating_add_i32(self.y, self.dy);
    }
}

/// Whether `v` lies outside `[0, limit]`.
pub open spec fn leaves_range(v: int, limit: int) -> bool {
    v > limit || v < 0
}

/// A demon whose prospective `x` lies beyond the right wall, and whose
/// prospective position is outside both of the bean's bands, leaves the
/// step with its horizontal velocity negated: it bounces once, whatever the
/// reroll samples. (A demon that the bean deflects too has `dx` negated
/// twice; one left without any velocity draws a new one.)
pub proof fn lemma_right_wall_flips_dx(
    demon: Demon,
    bean: Bean,
    arena_width: int,
    arena_height: int,
    draw: VelocityDraw,
)
    requires
        demon.wf(),
        !(demon.dx == 0 && demon.responded(bean, arena_width, arena_height).dy == 0),
        demon.next_x() > arena_width - demon.width,
        !bean.bands(demon.next_x(), demon.next_y()),
    ensures
        demon.responded(bean, arena_width, arena_height).rerolled(draw).moved().dx == -demon.dx,
{
}

/// The bean keeps its `x` whenever the pointer's canvas-local `x` is at most
/// the bean's diameter, and its `y` whenever the local `y` is.
pub proof fn lemma_bean_dead_zone(
    bean: Bean,
    input: UserInput,
    offset_left: int,
    offset_top: int,
    arena_width: int,
    arena_height: int,
)
    ensures
        input.mouse_x - offset_left <= 2 * bean.radius ==> bean.followed(
            input,
            offset_left,
            offset_top,
            arena_width,
            arena_height,
        ).x == bean.x,
        input.mouse_y - offset_top <= 2 * bean.radius ==> bean.followed(
            input,
            offset_left,
            offset_top,
            arena_width,
            arena_height,
        ).y == bean.y,
{
}

impl Bean {
    /// The radius is non-negative and its double fits in `i32`.
    pub open spec fn wf(self) -> bool {
        0 <= self.radius <= i32::MAX / 2
    }

    /// Whether a demon at `(x, y)` is deflected: it lies within the bean's
    /// horizontal band or within its vertical band.
    pub open spec fn bands(self, x: int, y: int) -> bool {
        (self.x - self.radius < x < self.x + self.radius)
            || (self.y - self.radius < y < self.y + self.radius)
    }

    /// The bean after following the pointer: each coordinate moves to the
    /// pointer's canvas-local coordinate less the radius when that coordinate
    /// lies strictly between the diameter and the arena's extent, and stays
    /// otherwise.
    pub open spec fn followed(
        self,
        input: UserInput,
        offset_left: int,
        offset_top: int,
        arena_width: int,
        arena_height: int,
    ) -> Bean {
        let rel_x = input.mouse_x - offset_left;
        let rel_y = input.mouse_y - offset_top;
        let x = if 2 * self.radius < rel_x < arena_width {
            rel_x - self.radius
        } else {
            self.x as int
        };
        let y = if 2 * self.radius < rel_y < arena_height {
            rel_y - self.radius
        } else {
            self.y as int
        };
        Bean { x: x as i32, y: y as i32, radius: self.radius }
    }

    /// Twice the radius.
    pub fn diameter(&self) -> (r: i32)
        requires
            self.wf(),
        ensures
            r == 2 * self.radius,
    {
        self.radius * 2
    }

    /// Whether a demon at `(x, y)` is deflected by the bean.
    pub fn hit_by(&self, x: i32, y: i32) -> (r: bool)
        ensures
            r == self.bands(x as int, y as int),
    {
        let bx = self.x as i64;
        let by = self.y as i64;
        let br = self.radius as i64;
        (bx - br < x as i64 && (x as i64) < bx + br) || (by - br < y as i64 && (y as i64) < by + br)
    }

    /// Moves the bean after the pointer, as `followed` states.
    pub fn follow(
        &mut self,
        input: &UserInput,
        offset_left: i32,
        offset_top: i32,
        arena_width: i32,
        arena_height: i32,
    )
        requires
            old(self).wf(),
        ensures
            *final(self) == old(self).followed(
                *input,
                offset_left as int,
                offset_top as int,
                arena_width as int,
                arena_height as int,
            ),
            final(self).wf(),
    {
        let diameter = self.diameter() as i64;
        let rel_x = input.mouse_x as i64 - offset_left as i64;
        if rel_x > diameter && rel_x < arena_width as i64 {
            self.x = (rel_x - self.radius as i64) as i32;
        }
        let rel_y = input.mouse_y as i64 - offset_top as i64;
        if rel_y > diameter && rel_y < arena_height as i64 {
            self.y = (rel_y - self.radius as i64) as i32;
        }
    }
}

impl Circle {
    /// Whether `(x, y)` passes the zone's test: strictly inside its
    /// horizontal extent and strictly inside its vertical extent.
    pub open spec fn holds(self, x: int, y: int) -> bool {
        (self.x - self.radius < x < self.x + self.radius)
            && (self.y - self.radius < y < self.y + self.radius)
    }

    /// Whether the demon stands in the zone.
    pub fn contains(&self, demon: &Demon) -> (r: bool)
        ensures
            r == self.holds(demon.x as int, demon.y as int),
    {
        let cx = self.x as i64;
        let cy = self.y as i64;
        let cr = self.radius as i64;
        let x = demon.x as i64;
        let y = demon.y as i64;
        (cx - cr < x && x < cx + cr) && (cy - cr < y && y < cy + cr)
    }
}

impl UserInput {
    /// Records the latest pointer position.
    pub fn set_mouse_position(&mut self, x: i32, y: i32)
        ensures
            final(self).mouse_x == x,
            final(self).mouse_y == y,
    {
        self.mouse_x = x;
        self.mouse_y = y;
    }
}

} // verus!
