use vstd::prelude::*;
use crate::geometry::{Dim, Vec2, SUBPIXELS};

verus! {

/// Gravity, in sub-pixel units per square millisecond (50 pixels per s²).
pub const GRAVITY: i64 = 50;

/// Largest change of velocity in one step, in sub-pixel units per
/// millisecond (100 pixels per second).
pub const MAX_DV: i64 = 100_000;

/// The named colours that the sandbox draws with.
#[derive(Clone, Copy, Debug, PartialEq, Eq, Structural)]
pub enum Color {
    SandyBrown,
    Gray,
    Black,
    Wheat,
    Red,
}

pub open spec fn color_rgba(c: Color) -> (u8, u8, u8, u8) {
    match c {
        Color::SandyBrown => (244, 164, 96, 255),
        Color::Gray => (128, 128, 128, 255),
        Color::Black => (0, 0, 0, 255),
        Color::Wheat => (245, 222, 179, 255),
        Color::Red => (255, 0, 0, 255),
    }
}

impl Color {
    /// The red, green, blue and alpha channels.
    pub fn rgba(&self) -> (r: (u8, u8, u8, u8))
        ensures
            r == color_rgba(*self),
    {
        match self {
            Color::SandyBrown => (244, 164, 96, 255),
            Color::Gray => (128, 128, 128, 255),
            Color::Black => (0, 0, 0, 255),
            Color::Wheat => (245, 222, 179, 255),
            Color::Red => (255, 0, 0, 255),
        }
    }
}

/// The colour behind everything that is drawn.
pub const BACKGROUND_COLOR: Color = Color::Black;

#[derive(Clone, Copy, Debug, PartialEq, Eq, Structural)]
pub enum ParticleKind {
    Sand,
    Wall,
}

pub open spec fn kind_color(k: ParticleKind) -> Color {
    match k {
        ParticleKind::Sand => Color::SandyBrown,
        ParticleKind::Wall => Color::Gray,
    }
}

pub open spec fn kind_name(k: ParticleKind) -> Seq<char> {
    match k {
        ParticleKind::Sand => seq!['S', 'a', 'n', 'd'],
        ParticleKind::Wall => seq!['W', 'a', 'l', 'l'],
    }
}

/// Render size `(width, height)` in pixels.
pub open spec fn kind_size(k: ParticleKind) -> (i32, i32) {
    match k {
        ParticleKind::Sand => (2, 2),
        ParticleKind::Wall => (4, 4),
    }
}

pub open spec fn kind_initial_velocity(k: ParticleKind) -> Vec2 {
    Vec2 { x: 0, y: 0 }
}

impl ParticleKind {
    pub fn color(&self) -> (r: Color)
        ensures
            r == kind_color(*self),
    {
        match self {
            ParticleKind::Sand => Color::SandyBrown,
            ParticleKind::Wall => Color::Gray,
        }
    }

    pub fn name(&self) -> (r: &'static str)
        ensures
            r@ == kind_name(*self),
    {
        match self {
            ParticleKind::Sand => {
                proof {
                    reveal_strlit("Sand");
                }
                "Sand"
            },
            ParticleKind::Wall => {
                proof {
                    reveal_strlit("Wall");
                }
                "Wall"
            },
        }
    }

    pub fn size(&self) -> (r: (i32, i32))
        ensures
            r == kind_size(*self),
    {
        match self {
            ParticleKind::Sand => (2, 2),
            ParticleKind::Wall => (4, 4),
        }
    }

    pub fn initial_velocity(&self) -> (r: Vec2)
        ensures
            r == kind_initial_velocity(*self),
    {
        match self {
            ParticleKind::Sand => Vec2 { x: 0, y: 0 },
            ParticleKind::Wall => Vec2 { x: 0, y: 0 },
        }
    }
}

impl Default for ParticleKind {
    fn default() -> (r: ParticleKind)
        ensures
            r == ParticleKind::Sand,
    {
        ParticleKind::Sand
    }
}

/// `v` held to the range of `i64`.
pub open spec fn saturate(v: int) -> i64 {
    if v > i64::MAX {
        i64::MAX
    } else if v < i64::MIN {
        i64::MIN
    } else {
        v as i64
    }
}

/// `v` held to the range of `i32`.
pub open spec fn saturate_i32(v: int) -> i32 {
    if v > i32::MAX {
        i32::MAX
    } else if v < i32::MIN {
        i32::MIN
    } else {
        v as i32
    }
}

/// The change of vertical velocity over `dt` milliseconds: gravity times the
/// elapsed time, clamped to `[-MAX_DV, MAX_DV]`.
pub open spec fn gravity_step(dt: u32) -> int {
    let dv = GRAVITY * dt;
    if dv > MAX_DV {
        MAX_DV as int
    } else if dv < -MAX_DV {
        -MAX_DV
    } else {
        dv
    }
}

/// A fixed-point coordinate in whole pixels, truncated toward zero and held
/// to the range of `i32`.
pub open spec fn to_pixel(v: i64) -> i32 {
    let s = SUBPIXELS as int;
    let q = if v >= 0 {
        v as int / s
    } else {
        -((-v) / s)
    };
    saturate_i32(q)
}

fn saturating_add(a: i64, b: i64) -> (r: i64)
    ensures
        r == saturate(a + b),
{
    match a.checked_add(b) {
        Some(v) => v,
        None => {
            if b > 0 {
                i64::MAX
            } else {
                i64::MIN
            }
        },
    }
}

fn saturate_wide(v: i128) -> (r: i64)
    ensures
        r == saturate(v as int),
{
    if v > i64::MAX as i128 {
        i64::MAX
    } else if v < i64::MIN as i128 {
        i64::MIN
    } else {
        v as i64
    }
}

fn pixel_of(v: i64) -> (r: i32)
    ensures
        r == to_pixel(v),
{
    let q = match v.checked_div(SUBPIXELS) {
        Some(q) => q,
        None => 0,
    };
    if q > i32::MAX as i64 {
        i32::MAX
    } else if q < i32::MIN as i64 {
        i32::MIN
    } else {
        q as i32
    }
}

/// One simulated particle. Its position is in sub-pixel units, its velocity
/// in sub-pixel units per millisecond, and its size in pixels.
#[derive(Clone, Copy, Debug, PartialEq, Eq, Structural)]
pub struct Particle {
    pub kind: ParticleKind,
    pub pos: Vec2,
    pub width: i32,
    pub height: i32,
    pub vel: Vec2,
}

/// A fresh particle of kind `k` at `pos`.
pub open spec fn spawned(k: ParticleKind, pos: Vec2) -> Particle {
    Particle {
        kind: k,
        pos,
        width: kind_size(k).0,
        height: kind_size(k).1,
        vel: kind_initial_velocity(k),
    }
}

/// The particle `p` after `dt` milliseconds. Sand gains `gravity_step(dt)`
/// of vertical velocity and then moves by its new vertical velocity times
/// `dt`; both values saturate at the bounds of `i64`. Walls do not move.
pub open spec fn evolved(p: Particle, dt: u32) -> Particle {
    match p.kind {
        ParticleKind::Sand => {
            let vy = saturate(p.vel.y + gravity_step(dt));
            Particle {
                vel: Vec2 { x: p.vel.x, y: vy },
                pos: Vec2 { x: p.pos.x, y: saturate(p.pos.y + vy * dt) },
                ..p
            }
        },
        ParticleKind::Wall => p,
    }
}

/// `p` after one step of each duration in `dts`, in order.
pub open spec fn evolved_all(p: Particle, dts: Seq<u32>) -> Particle
    decreases dts.len(),
{
    if dts.len() == 0 {
        p
    } else {
        evolved_all(evolved(p, dts[0]), dts.drop_first())
    }
}

/// `p` after `n` steps of `dt` milliseconds each.
pub open spec fn evolved_n(p: Particle, dt: u32, n: nat) -> Particle
    decreases n,
{
    if n == 0 {
        p
    } else {
        evolved(evolved_n(p, dt, (n - 1) as nat), dt)
    }
}

impl Particle {
    pub fn new(kind: ParticleKind, pos: Vec2) -> (r: Particle)
        ensures
            r == spawned(kind, pos),
    {
        let (width, height) = kind.size();
        Particle { kind, pos, width, height, vel: kind.initial_velocity() }
    }

    pub fn color(&self) -> (r: Color)
        ensures
            r == kind_color(self.kind),
    {
        self.kind.color()
    }

    /// The rectangle to draw, in pixels: the position truncated toward zero.
    pub fn screen_rect(&self) -> (r: Dim)
        ensures
            r == (Dim {
                x: to_pixel(self.pos.x),
                y: to_pixel(self.pos.y),
                width: self.width,
                height: self.height,
            }),
    {
        Dim { x: pixel_of(self.pos.x), y: pixel_of(self.pos.y), width: self.width, height: self.height }
    }

    /// Advances the particle by `dt` milliseconds.
    pub fn evolve(&mut self, dt: u32)
        ensures
            *final(self) == evolved(*old(self), dt),
    {
        match self.kind {
            ParticleKind::Sand => {
                // `dt` is unsigned, so only the upper bound of the clamp can apply.
                let dv: i64 = if dt as i64 * GRAVITY > MAX_DV {
                    MAX_DV
                } else {
                    dt as i64 * GRAVITY
                };
                self.vel.y = saturating_add(self.vel.y, dv);
                let vy = self.vel.y as i128;
                assert(-0x8000_0000_0000_0000 * 0x1_0000_0000 <= vy * dt <= 0x8000_0000_0000_0000
                    * 0x1_0000_0000) by (nonlinear_arith)
                    requires
                        -0x8000_0000_0000_0000 <= vy < 0x8000_0000_0000_0000,
                        0 <= dt < 0x1_0000_0000,
                ;
                self.pos.y = saturate_wide(self.pos.y as i128 + vy * dt as i128);
            },
            ParticleKind::Wall => {},
        }
    }
}

/// A wall never moves: whatever its position and velocity, any run of steps
/// leaves it exactly as it was.
pub proof fn lemma_wall_immobile(p: Particle, dts: Seq<u32>)
    requires
        p.kind == ParticleKind::Wall,
    ensures
        evolved_all(p, dts) == p,
    decreases dts.len(),
{
    if dts.len() > 0 {
        lemma_wall_immobile(evolved(p, dts[0]), dts.drop_first());
    }
}

/// One step of sand that is not rising keeps it from rising: its vertical
/// velocity and its vertical position do not decrease.
pub proof fn lemma_sand_step_falls(p: Particle, dt: u32)
    requires
        p.kind == ParticleKind::Sand,
        p.vel.y >= 0,
    ensures
        evolved(p, dt).vel.y >= p.vel.y,
        evolved(p, dt).pos.y >= p.pos.y,
        evolved(p, dt).kind == ParticleKind::Sand,
{
    let vy = evolved(p, dt).vel.y;
    assert(vy >= 0);
    assert(vy * dt >= 0) by (nonlinear_arith)
        requires
            vy >= 0,
            dt >= 0,
    ;
}

/// Sand that starts at rest (or already falls) and takes steps of one fixed
/// duration never rises: from each step to the next its vertical velocity
/// and its vertical position do not decrease.
pub proof fn lemma_sand_falls(p: Particle, dt: u32, n: nat)
    requires
        p.kind == ParticleKind::Sand,
        p.vel.y >= 0,
    ensures
        evolved_n(p, dt, n + 1).vel.y >= evolved_n(p, dt, n).vel.y,
        evolved_n(p, dt, n + 1).pos.y >= evolved_n(p, dt, n).pos.y,
    decreases n,
{
    lemma_sand_stays_falling(p, dt, n);
    lemma_sand_step_falls(evolved_n(p, dt, n), dt);
}

proof fn lemma_sand_stays_falling(p: Particle, dt: u32, n: nat)
    requires
        p.kind == ParticleKind::Sand,
        p.vel.y >= 0,
    ensures
        evolved_n(p, dt, n).kind == ParticleKind::Sand,
        evolved_n(p, dt, n).vel.y >= 0,
    decreases n,
{
    if n > 0 {
        lemma_sand_stays_falling(p, dt, (n - 1) as nat);
        lemma_sand_step_falls(evolved_n(p, dt, (n - 1) as nat), dt);
    }
}

} // verus!
