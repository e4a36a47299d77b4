//! How the pet moves along its strip at the bottom of the screen.
//!
//! Positions, sizes and velocities are in thousandths of a pixel;
//! velocities are per frame.
use vstd::prelude::*;
use crate::types::PetState;

verus! {

/// Thousandths of a pixel in a pixel.
pub const MILLIPX_PER_PX: i64 = 1000;

/// The side of the pet's square sprite: 64 pixels.
pub const SPRITE_SIZE: i64 = 64_000;

/// The height at which the pet stands: 32 pixels from the top of a 96 pixel
/// strip leaves the 64 pixels of the sprite below it.
pub const GROUND_LEVEL: i64 = 32_000;

/// Walking speed: 1.2 pixels a frame.
pub const WALK_SPEED: i64 = 1_200;

/// Gravity while jumping: 0.5 pixels a frame, each frame.
pub const GRAVITY: i64 = 500;

/// Upward speed at the start of a jump: 7 pixels a frame.
pub const JUMP_SPEED: i64 = 7_000;

/// Where the pet is and how it moves.
#[derive(Debug, Clone, Copy, PartialEq, Eq, Structural)]
pub struct PetPhysics {
    pub x: i64,
    pub y: i64,
    pub vx: i64,
    pub vy: i64,
    pub screen_width: i64,
    pub screen_height: i64,
    pub sprite_size: i64,
    pub ground_level: i64,
}

/// `v / 2` rounded toward zero, as Rust's integer division rounds.
pub open spec fn half_toward_zero(v: int) -> int {
    if v >= 0 {
        v / 2
    } else {
        -((-v) / 2)
    }
}

/// The absolute value of `v`.
pub open spec fn abs(v: int) -> int {
    if v < 0 {
        -v
    } else {
        v
    }
}

/// A length in thousandths of a pixel rounded to the nearest pixel, halves
/// away from zero (as `f32::round`).
pub open spec fn round_to_px(v: int) -> int {
    if v >= 0 {
        (v + 500) / 1000
    } else {
        -((-v + 500) / 1000)
    }
}

/// A length in thousandths of a pixel truncated to whole pixels (as an
/// `f32` to integer conversion).
pub open spec fn trunc_to_px(v: int) -> int {
    if v >= 0 {
        v / 1000
    } else {
        -((-v) / 1000)
    }
}

/// `v` saturated to the range of `i32` (as an `f32` to `i32` conversion).
pub open spec fn saturate_i32(v: int) -> int {
    if v < i32::MIN {
        i32::MIN as int
    } else if v > i32::MAX {
        i32::MAX as int
    } else {
        v
    }
}

impl PetPhysics {
    /// The rightmost position the pet can walk to.
    pub open spec fn max_x(self) -> int {
        if self.screen_width - self.sprite_size > 0 {
            self.screen_width - self.sprite_size
        } else {
            0
        }
    }

    /// The horizontal speed a walking frame uses: the current one, or the
    /// walking speed when the pet stands still.
    pub open spec fn walk_velocity(self) -> int {
        if self.vx == 0 {
            WALK_SPEED as int
        } else {
            self.vx as int
        }
    }

    /// The frame's arithmetic stays within `i64`.
    pub open spec fn tick_fits(self, state: PetState) -> bool {
        match state {
            PetState::Walking => {
                &&& i64::MIN < self.walk_velocity()
                &&& i64::MIN <= self.x + self.walk_velocity() <= i64::MAX
                &&& i64::MIN <= self.screen_width - self.sprite_size <= i64::MAX
            },
            PetState::Celebrating => {
                &&& i64::MIN <= self.y + self.vy <= i64::MAX
                &&& self.vy + GRAVITY <= i64::MAX
            },
            _ => true,
        }
    }

    /// Where the pet is after one frame in `state`: walking moves it by its
    /// speed and turns it round at either edge of the screen; celebrating
    /// makes it jump under gravity, landing on the ground and jumping again;
    /// any other state keeps it standing on the ground.
    pub open spec fn after_tick(self, state: PetState) -> PetPhysics {
        match state {
            PetState::Walking => {
                let vx = self.walk_velocity();
                let x = self.x + vx;
                let grounded = PetPhysics { y: self.ground_level, vy: 0, ..self };
                if x <= 0 {
                    PetPhysics { x: 0, vx: abs(vx) as i64, ..grounded }
                } else if x >= self.max_x() {
                    PetPhysics { x: self.max_x() as i64, vx: (-abs(vx)) as i64, ..grounded }
                } else {
                    PetPhysics { x: x as i64, vx: vx as i64, ..grounded }
                }
            },
            PetState::Celebrating => {
                let y = self.y + self.vy;
                if y >= self.ground_level {
                    PetPhysics { y: self.ground_level, vy: (-JUMP_SPEED) as i64, ..self }
                } else {
                    PetPhysics { y: y as i64, vy: (self.vy + GRAVITY) as i64, ..self }
                }
            },
            _ => PetPhysics { y: self.ground_level, vy: 0, ..self },
        }
    }

    /// The bounding box's corners in whole pixels, before any `i32`
    /// addition: left, top and the sprite's side.
    pub open spec fn box_origin(self) -> (int, int, int) {
        (
            saturate_i32(round_to_px(self.x as int)),
            saturate_i32(round_to_px(self.y as int)),
            saturate_i32(trunc_to_px(self.sprite_size as int)),
        )
    }

    /// The bounding box fits in `i32` coordinates.
    pub open spec fn box_fits(self) -> bool {
        let (ix, iy, size) = self.box_origin();
        &&& ix + size <= i32::MAX
        &&& iy + size <= i32::MAX
        &&& ix + size >= i32::MIN
        &&& iy + size >= i32::MIN
    }

    /// The pet's bounding box in whole pixels: left, top, right, bottom
    /// (right and bottom exclusive).
    pub open spec fn bbox(self) -> (int, int, int, int) {
        let (ix, iy, size) = self.box_origin();
        (ix, iy, ix + size, iy + size)
    }

    /// A pet centred on a screen of the given size (in thousandths of a
    /// pixel), standing on the ground and about to walk right.
    pub fn new(screen_width: i64, screen_height: i64) -> (p: Self)
        requires
            screen_width >= i64::MIN + SPRITE_SIZE,
        ensures
            p.x == half_toward_zero(screen_width - SPRITE_SIZE),
            p.y == GROUND_LEVEL,
            p.vx == WALK_SPEED,
            p.vy == 0,
            p.screen_width == screen_width,
            p.screen_height == screen_height,
            p.sprite_size == SPRITE_SIZE,
            p.ground_level == GROUND_LEVEL,
    {
        let room = screen_width - SPRITE_SIZE;
        let x = if room >= 0 {
            room / 2
        } else {
            -((-(room as i128)) / 2) as i64
        };
        PetPhysics {
            x,
            y: GROUND_LEVEL,
            vx: WALK_SPEED,
            vy: 0,
            screen_width,
            screen_height,
            sprite_size: SPRITE_SIZE,
            ground_level: GROUND_LEVEL,
        }
    }

    /// Moves the pet by one frame in `state`.
    pub fn tick(&mut self, state: PetState)
        requires
            old(self).tick_fits(state),
        ensures
            *final(self) == old(self).after_tick(state),
    {
        match state {
            PetState::Walking => {
                self.y = self.ground_level;
                self.vy = 0;
                if self.vx == 0 {
                    self.vx = WALK_SPEED;
                }
                self.x = self.x + self.vx;
                let room = self.screen_width - self.sprite_size;
                let max_x = if room > 0 {
                    room
                } else {
                    0
                };
                if self.x <= 0 {
                    self.x = 0;
                    self.vx = if self.vx < 0 {
                        -self.vx
                    } else {
                        self.vx
                    };
                } else if self.x >= max_x {
                    self.x = max_x;
                    self.vx = if self.vx < 0 {
                        self.vx
                    } else {
                        -self.vx
                    };
                }
            },
            PetState::Celebrating => {
                self.y = self.y + self.vy;
                self.vy = self.vy + GRAVITY;
                if self.y >= self.ground_level {
                    self.y = self.ground_level;
                    self.vy = -JUMP_SPEED;
                }
            },
            _ => {
                self.y = self.ground_level;
                self.vy = 0;
            },
        }
    }

    /// Whether a frame in `state` keeps the arithmetic of `tick` within
    /// `i64`.
    pub fn frame_fits(&self, state: PetState) -> (r: bool)
        ensures
            r == self.tick_fits(state),
    {
        match state {
            PetState::Walking => {
                let vx: i128 = if self.vx == 0 {
                    WALK_SPEED as i128
                } else {
                    self.vx as i128
                };
                let x = self.x as i128 + vx;
                let room = self.screen_width as i128 - self.sprite_size as i128;
                (i64::MIN as i128) < vx && i64::MIN as i128 <= x && x <= i64::MAX as i128 && i64::MIN as i128
                    <= room && room <= i64::MAX as i128
            },
            PetState::Celebrating => {
                let y = self.y as i128 + self.vy as i128;
                i64::MIN as i128 <= y && y <= i64::MAX as i128 && self.vy as i128 + GRAVITY as i128
                    <= i64::MAX as i128
            },
            _ => true,
        }
    }

    /// Whether the bounding box fits in `i32` coordinates.
    pub fn box_in_range(&self) -> (r: bool)
        ensures
            r == self.box_fits(),
    {
        let ix = round_px_exec(self.x) as i64;
        let iy = round_px_exec(self.y) as i64;
        let size = trunc_px_exec(self.sprite_size) as i64;
        ix + size <= i32::MAX as i64 && iy + size <= i32::MAX as i64 && ix + size >= i32::MIN as i64
            && iy + size >= i32::MIN as i64
    }

    /// The pet's bounding box in whole pixels: left, top, right and bottom,
    /// with right and bottom exclusive.
    pub fn bounding_box(&self) -> (r: (i32, i32, i32, i32))
        requires
            self.box_fits(),
        ensures
            (r.0 as int, r.1 as int, r.2 as int, r.3 as int) == self.bbox(),
    {
        let ix = round_px_exec(self.x);
        let iy = round_px_exec(self.y);
        let size = trunc_px_exec(self.sprite_size);
        (ix, iy, ix + size, iy + size)
    }

    /// Whether the pixel `(px, py)` lies on the pet.
    pub fn contains_point(&self, px: i32, py: i32) -> (r: bool)
        requires
            self.box_fits(),
        ensures
            r == (self.bbox().0 <= px < self.bbox().2 && self.bbox().1 <= py < self.bbox().3),
    {
        let (x1, y1, x2, y2) = self.bounding_box();
        px >= x1 && px < x2 && py >= y1 && py < y2
    }
}

fn saturate_exec(v: i128) -> (r: i32)
    ensures
        r == saturate_i32(v as int),
{
    if v < i32::MIN as i128 {
        i32::MIN
    } else if v > i32::MAX as i128 {
        i32::MAX
    } else {
        v as i32
    }
}

fn round_px_exec(v: i64) -> (r: i32)
    ensures
        r == saturate_i32(round_to_px(v as int)),
{
    let w = v as i128;
    let rounded = if w >= 0 {
        (w + 500) / 1000
    } else {
        -((-w + 500) / 1000)
    };
    saturate_exec(rounded)
}

fn trunc_px_exec(v: i64) -> (r: i32)
    ensures
        r == saturate_i32(trunc_to_px(v as int)),
{
    let w = v as i128;
    let truncated = if w >= 0 {
        w / 1000
    } else {
        -((-w) / 1000)
    };
    saturate_exec(truncated)
}

/// A walking frame keeps the pet on the ground and on the screen: between
/// the left edge and the rightmost position, with its speed unchanged in
/// size.
pub proof fn law_walking_stays_on_screen(p: PetPhysics)
    requires
        p.tick_fits(PetState::Walking),
    ensures
        0 <= p.after_tick(PetState::Walking).x <= p.max_x(),
        p.after_tick(PetState::Walking).y == p.ground_level,
        p.after_tick(PetState::Walking).vy == 0,
        abs(p.after_tick(PetState::Walking).vx as int) == abs(p.walk_velocity()),
{
}

/// A walking pet that reaches an edge turns round: it heads right after
/// reaching the left edge and left after reaching the right one.
pub proof fn law_walking_bounces(p: PetPhysics)
    requires
        p.tick_fits(PetState::Walking),
        p.walk_velocity() != 0,
    ensures
        p.x + p.walk_velocity() <= 0 ==> p.after_tick(PetState::Walking).vx > 0,
        0 < p.x + p.walk_velocity() && p.x + p.walk_velocity() >= p.max_x() ==> p.after_tick(
            PetState::Walking,
        ).vx < 0,
{
}

/// A celebrating pet never sinks below the ground: it is in the air, still
/// rising or falling under gravity, or it lands and jumps again.
pub proof fn law_jumping_stays_above_ground(p: PetPhysics)
    requires
        p.tick_fits(PetState::Celebrating),
    ensures
        p.after_tick(PetState::Celebrating).y <= p.ground_level,
        p.after_tick(PetState::Celebrating).y == p.ground_level ==> p.after_tick(
            PetState::Celebrating,
        ).vy == -JUMP_SPEED,
        p.after_tick(PetState::Celebrating).y < p.ground_level ==> p.after_tick(
            PetState::Celebrating,
        ).vy == p.vy + GRAVITY,
{
}

/// Standing states keep the pet on the ground, still vertically, where it
/// is horizontally.
pub proof fn law_standing_states_stay_grounded(p: PetPhysics, state: PetState)
    requires
        state != PetState::Walking,
        state != PetState::Celebrating,
    ensures
        p.after_tick(state).y == p.ground_level,
        p.after_tick(state).vy == 0,
        p.after_tick(state).x == p.x,
        p.after_tick(state).vx == p.vx,
{
}

/// The bounding box is a square of the sprite's size in whole pixels: 64
/// pixels for the pet's own sprite, from its position rounded to the pixel.
pub proof fn law_bounding_box_is_sprite_square(p: PetPhysics)
    requires
        p.box_fits(),
    ensures
        p.bbox().2 - p.bbox().0 == p.box_origin().2,
        p.bbox().3 - p.bbox().1 == p.box_origin().2,
        p.sprite_size == SPRITE_SIZE ==> p.box_origin().2 == 64,
        i32::MIN <= round_to_px(p.x as int) <= i32::MAX ==> p.bbox().0 == round_to_px(p.x as int),
{
}

/// Between the edges a walking pet moves by its speed and keeps it (the
/// walking speed when it stood still); a jumping pet moves by its vertical
/// speed, gains gravity and, once it reaches the ground, lands there and
/// jumps again.
pub proof fn law_frame_motion(p: PetPhysics)
    ensures
        p.tick_fits(PetState::Walking) && 0 < p.x + p.walk_velocity() < p.max_x() ==> p.after_tick(
            PetState::Walking,
        ).x == p.x + p.walk_velocity() && p.after_tick(PetState::Walking).vx == p.walk_velocity(),
        p.tick_fits(PetState::Celebrating) && p.y + p.vy < p.ground_level ==> p.after_tick(
            PetState::Celebrating,
        ).y == p.y + p.vy && p.after_tick(PetState::Celebrating).vy == p.vy + GRAVITY,
        p.tick_fits(PetState::Celebrating) && p.y + p.vy >= p.ground_level ==> p.after_tick(
            PetState::Celebrating,
        ).y == p.ground_level && p.after_tick(PetState::Celebrating).vy == -JUMP_SPEED,
        p.after_tick(PetState::Celebrating).x == p.x,
        p.after_tick(PetState::Celebrating).vx == p.vx,
{
}

} // verus!
