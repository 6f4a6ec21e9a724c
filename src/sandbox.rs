use vstd::prelude::*;
use crate::game::{is_pause_key, pause_key, FrameInput, GameState};
use crate::geometry::{Dim, Vec2};
use crate::particle::{evolved, spawned, Particle, ParticleKind};
use crate::selector::{
    grid_dim, hit_from, laid_out, valid_anchor, ParticleSelector, SelectorGrid,
};

verus! {

/// What a sandbox holds, as mathematical values.
pub struct SandboxModel {
    pub dim: Dim,
    pub particles: Seq<Particle>,
    pub selected: ParticleKind,
    pub panel: Dim,
    pub selectors: Seq<ParticleSelector>,
}

/// One step of `dt` milliseconds, as a function on particles.
pub open spec fn step_by(dt: u32) -> spec_fn(Particle) -> Particle {
    |p: Particle| evolved(p, dt)
}

/// Whether a particle lies in `region`.
pub open spec fn inside(region: Dim) -> spec_fn(Particle) -> bool {
    |p: Particle| region.contains(p.pos)
}

/// Every particle advanced by `dt` milliseconds, then those that left
/// `region` dropped; the others keep their order.
pub open spec fn advanced(ps: Seq<Particle>, dt: u32, region: Dim) -> Seq<Particle> {
    ps.map_values(step_by(dt)).filter(inside(region))
}

impl SandboxModel {
    pub open spec fn select(self, kind: ParticleKind) -> SandboxModel {
        SandboxModel { selected: kind, ..self }
    }

    /// A spawn adds a particle of the selected kind at `pos` when `pos` lies
    /// in the region, and changes nothing otherwise.
    pub open spec fn spawn(self, pos: Vec2) -> SandboxModel {
        if self.dim.contains(pos) {
            SandboxModel { particles: self.particles.push(spawned(self.selected, pos)), ..self }
        } else {
            self
        }
    }

    pub open spec fn advance(self, dt: u32) -> SandboxModel {
        SandboxModel { particles: advanced(self.particles, dt, self.dim), ..self }
    }

    /// A click at `pos` selects the kind of the control hit, if any.
    pub open spec fn click(self, pos: Vec2) -> SandboxModel {
        match hit_from(self.selectors, pos, 0) {
            Some(k) => self.select(k),
            None => self,
        }
    }

    /// One frame of the loop in phase `state`: the sandbox after it and the
    /// next phase.
    pub open spec fn frame(self, state: GameState, input: FrameInput) -> (SandboxModel, GameState) {
        match state {
            GameState::Starting => (self, GameState::Running),
            GameState::Paused => (self, if pause_key(input.key) {
                GameState::Running
            } else {
                GameState::Paused
            }),
            GameState::Running => {
                let a = self.advance(input.dt);
                if pause_key(input.key) {
                    (a, GameState::Paused)
                } else {
                    let b = if input.mouse_down {
                        a.spawn(input.mouse)
                    } else {
                        a
                    };
                    let c = if input.mouse_pressed {
                        b.click(input.mouse)
                    } else {
                        b
                    };
                    (c, GameState::Running)
                }
            },
        }
    }
}

/// The particle sandbox: a region, the particles in it, the kind that is
/// spawned next, and the panel of controls that picks that kind.
pub struct Sandbox {
    pub dim: Dim,
    pub particles: Vec<Particle>,
    pub selected_particle: ParticleKind,
    pub selectors: SelectorGrid,
}

impl View for Sandbox {
    type V = SandboxModel;

    open spec fn view(&self) -> SandboxModel {
        SandboxModel {
            dim: self.dim,
            particles: self.particles@,
            selected: self.selected_particle,
            panel: self.selectors.dim,
            selectors: self.selectors.selectors@,
        }
    }
}

proof fn lemma_filter_push(s: Seq<Particle>, x: Particle, pred: spec_fn(Particle) -> bool)
    ensures
        s.push(x).filter(pred) == (if pred(x) {
            s.filter(pred).push(x)
        } else {
            s.filter(pred)
        }),
{
    reveal(Seq::filter);
    assert(s.push(x).drop_last() =~= s);
}

impl Sandbox {
    pub open spec fn wf(&self) -> bool {
        self.dim.wf() && self.selectors.wf()
    }

    /// A sandbox over the region `(x, y, width, height)` with no particles,
    /// sand selected, and a control for sand and one for walls to its right.
    pub fn new(x: i32, y: i32, width: i32, height: i32) -> (r: Sandbox)
        requires
            (Dim { x, y, width, height }).wf(),
            valid_anchor((x + width) as i32, y),
        ensures
            r.wf(),
            r@.dim == (Dim { x, y, width, height }),
            r@.particles.len() == 0,
            r@.selected == ParticleKind::Sand,
            r@.panel == grid_dim((x + width) as i32, y),
            r@.selectors == seq![
                laid_out(r@.panel, ParticleKind::Sand, 0),
                laid_out(r@.panel, ParticleKind::Wall, 1),
            ],
    {
        let kinds: Vec<ParticleKind> = vec![ParticleKind::Sand, ParticleKind::Wall];
        let selectors = SelectorGrid::new(x + width, y, kinds);
        let r = Sandbox {
            dim: Dim { x, y, width, height },
            particles: Vec::new(),
            selected_particle: ParticleKind::default(),
            selectors,
        };
        assert(r@.selectors =~= seq![
            laid_out(r@.panel, ParticleKind::Sand, 0),
            laid_out(r@.panel, ParticleKind::Wall, 1),
        ]);
        r
    }

    /// Adds a particle of the selected kind at `pos`; a position outside the
    /// region is ignored.
    pub fn spawn_particle(&mut self, pos: Vec2)
        requires
            old(self).wf(),
        ensures
            final(self).wf(),
            final(self)@ == old(self)@.spawn(pos),
            old(self).dim.contains(pos) ==> final(self).particles@ == old(
                self,
            ).particles@.push(spawned(old(self).selected_particle, pos)),
            !old(self).dim.contains(pos) ==> final(self)@ == old(self)@,
            (forall|i: int|
                0 <= i < old(self).particles.len() ==> old(self).dim.contains(
                    #[trigger] old(self).particles[i].pos,
                )) ==> forall|i: int|
                0 <= i < final(self).particles.len() ==> final(self).dim.contains(
                    #[trigger] final(self).particles[i].pos,
                ),
    {
        if self.dim.in_boundary(pos) {
            let p = Particle::new(self.selected_particle, pos);
            self.particles.push(p);
        }
    }

    pub fn set_selected(&mut self, kind: ParticleKind)
        requires
            old(self).wf(),
        ensures
            final(self).wf(),
            final(self)@ == old(self)@.select(kind),
    {
        self.selected_particle = kind;
    }

    /// Advances every particle by `dt` milliseconds, then removes those that
    /// left the region.
    pub fn evolve(&mut self, dt: u32)
        requires
            old(self).wf(),
        ensures
            final(self).wf(),
            final(self)@ == old(self)@.advance(dt),
            forall|i: int|
                0 <= i < final(self).particles.len() ==> final(self).dim.contains(
                    #[trigger] final(self).particles[i].pos,
                ),
            forall|i: int|
                0 <= i < old(self).particles.len() && old(self).dim.contains(
                    evolved(#[trigger] old(self).particles[i], dt).pos,
                ) ==> final(self)@.particles.contains(evolved(old(self).particles[i], dt)),
    {
        let ghost ps = self.particles@;
        let mut kept: Vec<Particle> = Vec::new();
        let mut i: usize = 0;
        while i < self.particles.len()
            invariant
                self.particles@ == ps,
                0 <= i <= ps.len(),
                kept@ == ps.take(i as int).map_values(step_by(dt)).filter(inside(self.dim)),
            decreases ps.len() - i,
        {
            let mut p = self.particles[i];
            p.evolve(dt);
            proof {
                assert(ps.take(i + 1).map_values(step_by(dt)) =~= ps.take(i as int).map_values(
                    step_by(dt),
                ).push(p));
                lemma_filter_push(
                    ps.take(i as int).map_values(step_by(dt)),
                    p,
                    inside(self.dim),
                );
            }
            if self.dim.in_boundary(p.pos) {
                kept.push(p);
            }
            i = i + 1;
        }
        proof {
            assert(ps.take(ps.len() as int) =~= ps);
            let m = ps.map_values(step_by(dt));
            assert forall|j: int| 0 <= j < kept.len() implies self.dim.contains(
                #[trigger] kept[j].pos,
            ) by {
                m.lemma_filter_pred(inside(self.dim), j);
            }
            assert forall|j: int|
                0 <= j < ps.len() && self.dim.contains(
                    evolved(#[trigger] ps[j], dt).pos,
                ) implies kept@.contains(evolved(ps[j], dt)) by {
                assert(m[j] == evolved(ps[j], dt));
                m.lemma_filter_contains(inside(self.dim), j);
            }
        }
        self.particles = kept;
    }

    pub fn in_boundary(&self, pos: Vec2) -> (r: bool)
        ensures
            r == self.dim.contains(pos),
    {
        self.dim.in_boundary(pos)
    }

    /// Selects the kind of the first control whose box holds `pos`; a click
    /// on no control changes nothing.
    pub fn particle_selector_clicked(&mut self, pos: Vec2)
        requires
            old(self).wf(),
        ensures
            final(self).wf(),
            final(self)@ == old(self)@.click(pos),
    {
        match self.selectors.hit_test(pos) {
            Some(kind) => self.selected_particle = kind,
            None => {},
        }
    }

    /// Runs one frame of the loop in phase `state` on `input` and returns
    /// the next phase. Only a running loop advances, spawns and selects; a
    /// pause key stops it right after the advance of that frame.
    pub fn frame(&mut self, state: GameState, input: FrameInput) -> (r: GameState)
        requires
            old(self).wf(),
        ensures
            final(self).wf(),
            (final(self)@, r) == old(self)@.frame(state, input),
    {
        match state {
            GameState::Starting => GameState::Running,
            GameState::Paused => {
                if is_pause_key(&input.key) {
                    GameState::Running
                } else {
                    GameState::Paused
                }
            },
            GameState::Running => {
                self.evolve(input.dt);
                if is_pause_key(&input.key) {
                    return GameState::Paused;
                }
                if input.mouse_down {
                    self.spawn_particle(input.mouse);
                }
                if input.mouse_pressed {
                    self.particle_selector_clicked(input.mouse);
                }
                GameState::Running
            },
        }
    }
}

/// Selecting a kind decides the kind of what is spawned next inside the
/// region: with walls selected a spawn adds a wall, with sand selected
/// afterwards the next spawn adds sand, and the wall stays as it was.
pub proof fn lemma_selection_round_trip(s: SandboxModel, p: Vec2, q: Vec2)
    requires
        s.dim.contains(p),
        s.dim.contains(q),
    ensures
        ({
            let s1 = s.select(ParticleKind::Wall).spawn(p);
            let s2 = s1.select(ParticleKind::Sand).spawn(q);
            &&& s1.particles.last().kind == ParticleKind::Wall
            &&& s1.particles.last().pos == p
            &&& s2.particles.last().kind == ParticleKind::Sand
            &&& s2.particles.last().pos == q
            &&& s2.particles.drop_last() == s1.particles
            &&& s1.particles.drop_last() == s.particles
        }),
{
    let s1 = s.select(ParticleKind::Wall).spawn(p);
    let s2 = s1.select(ParticleKind::Sand).spawn(q);
    assert(s2.particles.drop_last() =~= s1.particles);
    assert(s1.particles.drop_last() =~= s.particles);
}

} // verus!
