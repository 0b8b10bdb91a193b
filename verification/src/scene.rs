//! The scene: the fixed sphere list and the single animated light.
//!
//! The light orbits on a horizontal circle.  Its motion is driven by a
//! single scalar, the orbit phase, measured in integer *phase units*:
//! `FULL_TURN` units make one revolution, and one unit is half a
//! microradian, so `ANGULAR_SPEED` units per millisecond is 0.5 rad/s.
//! The stored phase is the total advance since construction, monotone in
//! elapsed time — no animation step ever decreases it; the angle at which
//! the orbit circle is evaluated is its remainder modulo `FULL_TURN`
//! ([`reduced_s`]).  Keeping the phase as an exact integer makes the
//! animation additive and periodic exactly, not merely within rounding:
//! the light's position is a pure function of the reduced phase
//! (`x = radius * cos(phase)`, `z = radius * sin(phase)`, `y` fixed), so
//! equal reduced phases mean equal positions.  The trigonometric
//! evaluation itself is not representable here and is carried out by the
//! rendering glue, which hands the resulting coordinates back as plain
//! fixed-point values (see [`Scene::light_snapshot`]).

use vstd::prelude::*;

verus! {

use vstd::arithmetic::div_mod::lemma_fundamental_div_mod;
use vstd::arithmetic::mul::lemma_mul_upper_bound;
use vstd::arithmetic::div_mod::lemma_mod_multiples_vanish;
use crate::light::Light;
use crate::sphere::{Sphere, MAX_COORD};
use crate::vec3::{Vec3, V3};

/// Phase units in one full revolution: `round(4 * pi * 10^6)`, so one unit
/// is half a microradian.
pub const FULL_TURN: u64 = 12_566_371;

/// Orbit speed in phase units per millisecond of elapsed time
/// (1000 units/ms = 0.5 rad/s).
pub const ANGULAR_SPEED: u64 = 1_000;

/// Radius of the light's orbit (150 spatial units).
pub const ORBIT_RADIUS: i64 = 1_500_000;

/// Fixed height (`y`) of the orbiting light (-250 spatial units).
pub const LIGHT_Y: i64 = -2_500_000;

/// Intensity of the light (1.0).
pub const LIGHT_INTENSITY: i64 = 10_000;

/// Elapsed time per frame assumed by the fixed-step update (10 ms).
pub const DEFAULT_FRAME_MS: u64 = 10;

/// The total orbit phase after `dt` milliseconds elapse from total
/// `phase`.  The sum saturates at the top of `u64` — a cap reached only
/// after hundreds of millennia of animation — so the advance is monotone
/// for every input.
pub open spec fn advance_s(phase: int, dt: int) -> int {
    let sum = phase + (ANGULAR_SPEED as int) * dt;
    if sum > u64::MAX as int {
        u64::MAX as int
    } else {
        sum
    }
}

/// The phase reduced to one revolution: the angle at which the orbit
/// circle is evaluated.
pub open spec fn reduced_s(phase: int) -> int {
    phase % (FULL_TURN as int)
}

/// The four documented default spheres: a large ground sphere plus three
/// small spheres, each with individually chosen color and reflectivity.
pub open spec fn default_spheres() -> Seq<Sphere> {
    seq![
        Sphere {
            center: Vec3 { x: 0, y: 506_000, z: -10_000i64 },
            radius: 500_000,
            color: Vec3 { x: 1_000, y: 1_000, z: 2_000 },
            reflectivity: 1_000,
        },
        Sphere {
            center: Vec3 { x: 0, y: 1_100, z: -20_000i64 },
            radius: 5_000,
            color: Vec3 { x: 5_000, y: 0, z: 0 },
            reflectivity: 5_000,
        },
        Sphere {
            center: Vec3 { x: 8_000, y: 3_150, z: -20_000i64 },
            radius: 3_000,
            color: Vec3 { x: 1_000, y: 2_000, z: 3_000 },
            reflectivity: 7_000,
        },
        Sphere {
            center: Vec3 { x: -6_500i64, y: 3_060, z: -15_000i64 },
            radius: 3_000,
            color: Vec3 { x: 3_000, y: 2_000, z: 1_000 },
            reflectivity: 3_000,
        },
    ]
}

/// A scene: the ordered sphere list (fixed at startup) and the light's
/// animated state.  The sphere order defines the ray-test order, but the
/// nearest-hit search is proved order-independent in the distance it
/// returns (see the shading module).
pub struct Scene {
    pub spheres: Vec<Sphere>,
    /// Total phase units accumulated since construction; monotone.
    pub light_phase: u64,
    pub light_y: i64,
    pub light_intensity: i64,
}

impl Scene {
    /// Well-formedness: bounded light parameters and well-formed spheres.
    pub open spec fn wf(self) -> bool {
        &&& -MAX_COORD <= self.light_y <= MAX_COORD
        &&& 0 <= self.light_intensity <= MAX_COORD
        &&& forall|i: int| 0 <= i < self.spheres@.len() ==> self.spheres@[i].wf()
    }

    /// The default test scene: exactly the documented spheres
    /// ([`default_spheres`]) and the light at orbit phase 0.
    pub fn new() -> (s: Scene)
        ensures
            s.wf(),
            s.spheres@ == default_spheres(),
            s.light_phase == 0,
            s.light_y == LIGHT_Y,
            s.light_intensity == LIGHT_INTENSITY,
    {
        let mut spheres: Vec<Sphere> = Vec::new();
        spheres.push(Sphere {
            center: Vec3 { x: 0, y: 506_000, z: -10_000 },
            radius: 500_000,
            color: Vec3 { x: 1_000, y: 1_000, z: 2_000 },
            reflectivity: 1_000,
        });
        spheres.push(Sphere {
            center: Vec3 { x: 0, y: 1_100, z: -20_000 },
            radius: 5_000,
            color: Vec3 { x: 5_000, y: 0, z: 0 },
            reflectivity: 5_000,
        });
        spheres.push(Sphere {
            center: Vec3 { x: 8_000, y: 3_150, z: -20_000 },
            radius: 3_000,
            color: Vec3 { x: 1_000, y: 2_000, z: 3_000 },
            reflectivity: 7_000,
        });
        spheres.push(Sphere {
            center: Vec3 { x: -6_500, y: 3_060, z: -15_000 },
            radius: 3_000,
            color: Vec3 { x: 3_000, y: 2_000, z: 1_000 },
            reflectivity: 3_000,
        });
        proof {
            assert(spheres@ =~= default_spheres());
        }
        Scene {
            spheres,
            light_phase: 0,
            light_y: LIGHT_Y,
            light_intensity: LIGHT_INTENSITY,
        }
    }

    /// A scene with caller-chosen contents: the documented defaults above
    /// are just one configuration.
    pub fn from_parts(spheres: Vec<Sphere>, light_y: i64, light_intensity: i64) -> (s: Scene)
        requires
            -MAX_COORD <= light_y <= MAX_COORD,
            0 <= light_intensity <= MAX_COORD,
            forall|i: int| 0 <= i < spheres@.len() ==> spheres@[i].wf(),
        ensures
            s.wf(),
            s.spheres@ == spheres@,
            s.light_phase == 0,
            s.light_y == light_y,
            s.light_intensity == light_intensity,
    {
        Scene { spheres, light_phase: 0, light_y, light_intensity }
    }

    /// Advance the orbit by the elapsed time `dt_ms` (milliseconds).
    /// Must be called exactly once per rendered frame.  The phase is
    /// advanced monotonically — it never decreases — and the sphere list
    /// and every other field are untouched.
    pub fn animate(&mut self, dt_ms: u64)
        ensures
            final(self).light_phase as int
                == advance_s(old(self).light_phase as int, dt_ms as int),
            final(self).light_phase >= old(self).light_phase,
            final(self).spheres@ == old(self).spheres@,
            final(self).light_y == old(self).light_y,
            final(self).light_intensity == old(self).light_intensity,
            old(self).wf() ==> final(self).wf(),
    {
        proof {
            lemma_mul_upper_bound(ANGULAR_SPEED as int, 1_000, dt_ms as int,
                0xffff_ffff_ffff_ffff);
        }
        let sum: u128 = (self.light_phase as u128)
            + (ANGULAR_SPEED as u128) * (dt_ms as u128);
        self.light_phase = if sum > u64::MAX as u128 {
            u64::MAX
        } else {
            sum as u64
        };
    }

    /// The fixed-step per-frame update of the original frame loop:
    /// one `DEFAULT_FRAME_MS` step of the orbit.
    pub fn light_update(&mut self)
        ensures
            final(self).light_phase as int
                == advance_s(old(self).light_phase as int, DEFAULT_FRAME_MS as int),
            final(self).light_phase >= old(self).light_phase,
            final(self).spheres@ == old(self).spheres@,
            final(self).light_y == old(self).light_y,
            final(self).light_intensity == old(self).light_intensity,
            old(self).wf() ==> final(self).wf(),
    {
        self.animate(DEFAULT_FRAME_MS);
    }

    /// The reduced phase — the angle on the orbit circle — for the
    /// current frame.
    pub fn reduced_phase(&self) -> (p: u64)
        ensures
            p as int == reduced_s(self.light_phase as int),
            p < FULL_TURN,
    {
        self.light_phase % FULL_TURN
    }

    /// Byte-exact copy of the sphere list for upload; never changes after
    /// construction.
    pub fn snapshot_spheres(&self) -> (v: Vec<Sphere>)
        ensures
            v@ == self.spheres@,
    {
        let mut v: Vec<Sphere> = Vec::new();
        let mut i: usize = 0;
        while i < self.spheres.len()
            invariant
                i <= self.spheres@.len(),
                v@ == self.spheres@.subrange(0, i as int),
            decreases self.spheres@.len() - i,
        {
            v.push(self.spheres[i]);
            i = i + 1;
        }
        proof {
            assert(self.spheres@.subrange(0, self.spheres@.len() as int) == self.spheres@);
        }
        v
    }

    /// The light snapshot for the current frame.  The caller evaluates the
    /// orbit circle at the reduced phase — `orbit_x = radius * cos(phase)`,
    /// `orbit_z = radius * sin(phase)` — and hands the two coordinates in;
    /// this function owns everything else about the snapshot.
    pub fn light_snapshot(&self, orbit_x: i64, orbit_z: i64) -> (l: Light)
        ensures
            l.position@ == (V3 { x: orbit_x as int, y: self.light_y as int, z: orbit_z as int }),
            l.intensity == self.light_intensity,
            self.wf() && -MAX_COORD <= orbit_x <= MAX_COORD && -MAX_COORD <= orbit_z <= MAX_COORD
                ==> l.wf(),
    {
        Light {
            position: Vec3 { x: orbit_x, y: self.light_y, z: orbit_z },
            intensity: self.light_intensity,
        }
    }
}

/// The orbit phase is advanced monotonically by elapsed time: no
/// animation step ever decreases it.
pub proof fn lemma_phase_monotone(phase: int, dt: int)
    requires
        0 <= phase <= u64::MAX as int,
        0 <= dt,
    ensures
        advance_s(phase, dt) >= phase,
{
}

/// Orbit additivity: animating for `t1` then `t2` milliseconds leaves the
/// phase — and hence the light position, a pure function of the reduced
/// phase — exactly where a single animation for `t1 + t2` leaves it, for
/// any total below the saturation cap.
pub proof fn lemma_animate_additive(phase: int, t1: int, t2: int)
    requires
        0 <= phase,
        0 <= t1,
        0 <= t2,
        phase + (ANGULAR_SPEED as int) * (t1 + t2) <= u64::MAX as int,
    ensures
        advance_s(advance_s(phase, t1), t2) == advance_s(phase, t1 + t2),
{
    let s = ANGULAR_SPEED as int;
    assert(s * (t1 + t2) == s * t1 + s * t2) by (nonlinear_arith);
    assert(s * t1 >= 0 && s * t2 >= 0) by (nonlinear_arith)
        requires s == 1_000 && t1 >= 0 && t2 >= 0;
}

/// Orbit periodicity: any elapsed time whose phase advance is a whole
/// number of revolutions returns the reduced phase — and hence the light
/// position — exactly to its starting value.
pub proof fn lemma_orbit_periodic(phase: int, dt: int)
    requires
        0 <= phase,
        0 <= dt,
        phase + (ANGULAR_SPEED as int) * dt <= u64::MAX as int,
        ((ANGULAR_SPEED as int) * dt) % (FULL_TURN as int) == 0,
    ensures
        reduced_s(advance_s(phase, dt)) == reduced_s(phase),
{
    let m = FULL_TURN as int;
    let s = ANGULAR_SPEED as int;
    lemma_fundamental_div_mod(s * dt, m);
    assert(s * dt == m * ((s * dt) / m));
    lemma_mod_multiples_vanish((s * dt) / m, phase, m);
}

} // verus!
