use falling_sand::game::{center_text, is_pause_key, FrameInput, GameState, KEY_P, KEY_SPACE};
use falling_sand::geometry::{Dim, Vec2, SUBPIXELS};
use falling_sand::particle::{Color, Particle, ParticleKind};
use falling_sand::sandbox::Sandbox;

fn px(x: i64, y: i64) -> Vec2 {
    Vec2::new(x * SUBPIXELS, y * SUBPIXELS)
}

#[test]
fn containment_is_inclusive() {
    let region = Dim::new(0, 0, 10, 10);
    assert!(region.in_boundary(px(0, 0)));
    assert!(region.in_boundary(px(10, 10)));
    assert!(region.in_boundary(px(5, 10)));
    assert!(!region.in_boundary(Vec2::new(10_100_000, 5_000_000)));
    assert!(!region.in_boundary(Vec2::new(-1, 5_000_000)));
    assert!(!region.in_boundary(Vec2::new(5_000_000, 10_000_001)));
}

#[test]
fn from_pixels_scales() {
    assert_eq!(Vec2::from_pixels(3, -4), Vec2::new(3_000_000, -4_000_000));
}

#[test]
fn sand_falls_and_leaves_the_region() {
    let mut sb = Sandbox::new(0, 0, 1000, 1000);
    assert!(sb.in_boundary(px(500, 500)));
    sb.spawn_particle(px(500, 500));
    sb.evolve(1000);
    assert_eq!(sb.particles.len(), 1);
    // 50 pixels per second, in sub-pixels per millisecond.
    assert_eq!(sb.particles[0].vel.y, 50_000);
    assert_eq!(sb.particles[0].pos.y, 550 * SUBPIXELS);
    assert_eq!(sb.particles[0].pos.x, 500 * SUBPIXELS);
    sb.evolve(1000);
    assert_eq!(sb.particles[0].pos.y, 650 * SUBPIXELS);
    sb.evolve(1000);
    assert_eq!(sb.particles[0].pos.y, 800 * SUBPIXELS);
    sb.evolve(1000);
    // Exactly on the lower edge: still inside.
    assert_eq!(sb.particles.len(), 1);
    assert_eq!(sb.particles[0].pos.y, 1000 * SUBPIXELS);
    sb.evolve(1000);
    assert!(sb.particles.is_empty());
}

#[test]
fn eviction_keeps_only_particles_inside() {
    let mut sb = Sandbox::new(0, 0, 100, 100);
    sb.spawn_particle(px(10, 99));
    sb.set_selected(ParticleKind::Wall);
    sb.spawn_particle(px(20, 99));
    sb.set_selected(ParticleKind::Sand);
    sb.spawn_particle(px(30, 10));
    // Outside from the start: removed by the next step.
    sb.spawn_particle(px(200, 10));
    sb.evolve(1000);
    assert_eq!(sb.particles.len(), 2);
    assert_eq!(sb.particles[0].kind, ParticleKind::Wall);
    assert_eq!(sb.particles[0].pos, px(20, 99));
    assert_eq!(sb.particles[1].pos, px(30, 60));
    for p in &sb.particles {
        assert!(sb.in_boundary(p.pos));
    }
}

#[test]
fn advancing_nothing_is_a_no_op() {
    let mut sb = Sandbox::new(0, 0, 100, 100);
    sb.evolve(16);
    assert!(sb.particles.is_empty());
}

#[test]
fn velocity_increment_is_clamped() {
    let mut p = Particle::new(ParticleKind::Sand, px(0, 0));
    p.evolve(3000);
    assert_eq!(p.vel.y, 100_000);
    assert_eq!(p.pos.y, 300 * SUBPIXELS);
    // The clamp bounds each step's increment, not the velocity.
    p.evolve(3000);
    assert_eq!(p.vel.y, 200_000);
    assert_eq!(p.pos.y, 900 * SUBPIXELS);
}

#[test]
fn zero_time_step_changes_nothing() {
    let mut p = Particle::new(ParticleKind::Sand, px(5, 5));
    p.evolve(0);
    assert_eq!(p, Particle::new(ParticleKind::Sand, px(5, 5)));
}

#[test]
fn wall_never_moves() {
    let mut p = Particle::new(ParticleKind::Wall, px(7, 9));
    p.vel = Vec2::new(3, -700);
    let before = p;
    for dt in [0u32, 1, 16, 1000, 5000] {
        p.evolve(dt);
        assert_eq!(p, before);
    }
}

#[test]
fn sand_from_rest_never_rises() {
    let mut p = Particle::new(ParticleKind::Sand, px(0, 0));
    let mut last = p;
    for _ in 0..50 {
        p.evolve(16);
        assert!(p.vel.y >= last.vel.y);
        assert!(p.pos.y >= last.pos.y);
        last = p;
    }
    assert!(p.pos.y > 0);
}

#[test]
fn huge_velocity_saturates() {
    let mut p = Particle::new(ParticleKind::Sand, px(0, 0));
    p.vel = Vec2::new(0, i64::MAX - 10);
    p.evolve(1);
    assert_eq!(p.vel.y, i64::MAX);
    assert_eq!(p.pos.y, i64::MAX);
}

#[test]
fn new_particle_takes_kind_defaults() {
    let s = Particle::new(ParticleKind::Sand, px(1, 2));
    assert_eq!((s.width, s.height), (2, 2));
    assert_eq!(s.vel, Vec2::new(0, 0));
    let w = Particle::new(ParticleKind::Wall, px(1, 2));
    assert_eq!((w.width, w.height), (4, 4));
    assert_eq!(w.vel, Vec2::new(0, 0));
    assert_eq!(w.color(), Color::Gray);
}

#[test]
fn screen_rect_truncates_toward_zero() {
    let mut p = Particle::new(ParticleKind::Sand, Vec2::new(500_700_000, -2_500_000));
    assert_eq!(p.screen_rect(), Dim::new(500, -2, 2, 2));
    p.pos = Vec2::new(i64::MAX, i64::MIN);
    assert_eq!(p.screen_rect(), Dim::new(i32::MAX, i32::MIN, 2, 2));
}

#[test]
fn selection_round_trip() {
    let mut sb = Sandbox::new(0, 0, 100, 100);
    assert_eq!(sb.selected_particle, ParticleKind::Sand);
    sb.set_selected(ParticleKind::Wall);
    sb.spawn_particle(px(1, 1));
    assert_eq!(sb.particles[0].kind, ParticleKind::Wall);
    sb.set_selected(ParticleKind::Sand);
    sb.spawn_particle(px(2, 2));
    assert_eq!(sb.particles[1].kind, ParticleKind::Sand);
    assert_eq!(sb.particles[0], Particle::new(ParticleKind::Wall, px(1, 1)));
}

#[test]
fn clicking_a_control_selects_its_kind() {
    let mut sb = Sandbox::new(40, 40, 1000, 1000);
    // Controls sit at x 1050..1290; Sand at y 40..120, Wall at y 135..215.
    sb.particle_selector_clicked(px(1100, 200));
    assert_eq!(sb.selected_particle, ParticleKind::Wall);
    sb.particle_selector_clicked(px(1100, 125));
    assert_eq!(sb.selected_particle, ParticleKind::Wall);
    sb.particle_selector_clicked(px(1050, 120));
    assert_eq!(sb.selected_particle, ParticleKind::Sand);
}

#[test]
fn pause_keys() {
    assert!(is_pause_key(&Some(KEY_P)));
    assert!(is_pause_key(&Some(KEY_SPACE)));
    assert!(!is_pause_key(&Some(81)));
    assert!(!is_pause_key(&None));
}

fn input(dt: u32, mouse: Vec2, down: bool, pressed: bool, key: Option<u32>) -> FrameInput {
    FrameInput { dt, mouse, mouse_down: down, mouse_pressed: pressed, key }
}

#[test]
fn frame_loop_transitions() {
    let mut sb = Sandbox::new(40, 40, 1000, 1000);
    let idle = input(1000, px(0, 0), false, false, None);
    assert_eq!(sb.frame(GameState::Starting, idle), GameState::Running);
    // Spawn inside the region while the button is held.
    let held = input(0, px(100, 100), true, false, None);
    assert_eq!(sb.frame(GameState::Running, held), GameState::Running);
    assert_eq!(sb.particles.len(), 1);
    // Outside the region nothing is spawned.
    let outside = input(0, px(10, 10), true, false, None);
    assert_eq!(sb.frame(GameState::Running, outside), GameState::Running);
    assert_eq!(sb.particles.len(), 1);
    // A pause key advances the frame, then stops before spawning.
    let pause = input(1000, px(100, 100), true, true, Some(KEY_P));
    assert_eq!(sb.frame(GameState::Running, pause), GameState::Paused);
    assert_eq!(sb.particles.len(), 1);
    assert_eq!(sb.particles[0].pos.y, 150 * SUBPIXELS);
    // Paused: nothing moves until the pause key comes again.
    assert_eq!(sb.frame(GameState::Paused, idle), GameState::Paused);
    assert_eq!(sb.particles[0].pos.y, 150 * SUBPIXELS);
    let resume = input(1000, px(0, 0), false, false, Some(KEY_SPACE));
    assert_eq!(sb.frame(GameState::Paused, resume), GameState::Running);
    assert_eq!(sb.particles[0].pos.y, 150 * SUBPIXELS);
    // A click on the wall control selects walls.
    let click = input(0, px(1100, 200), true, true, None);
    assert_eq!(sb.frame(GameState::Running, click), GameState::Running);
    assert_eq!(sb.selected_particle, ParticleKind::Wall);
}

#[test]
fn centered_text_layout() {
    let c = center_text(1920, 1080, 100, 50);
    assert_eq!((c.text_x, c.text_y), (910, 490));
    assert_eq!(c.backdrop, Dim::new(900, 480, 120, 70));
}

#[test]
fn spawning_outside_the_region_is_ignored() {
    let mut sb = Sandbox::new(0, 0, 100, 100);
    sb.spawn_particle(px(101, 50));
    sb.spawn_particle(Vec2::new(-1, 0));
    assert!(sb.particles.is_empty());
    sb.spawn_particle(px(100, 100));
    assert_eq!(sb.particles.len(), 1);
}
