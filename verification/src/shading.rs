//! The per-pixel shading algorithm: ray generation, nearest-hit search,
//! diffuse shading and one mirror bounce.
//!
//! Conceptually this runs once per output pixel, massively parallel and
//! stateless across invocations: it consumes the camera, the sphere list
//! and the light, and produces a color.  Every step is written twice —
//! once as a spec function over unbounded integers and once as executable
//! fixed-point code proved equal to it — so the color of every pixel is
//! pinned down exactly, and for fixed inputs it is exactly reproducible.

use vstd::prelude::*;

verus! {

use vstd::arithmetic::div_mod::{
    lemma_div_is_ordered, lemma_div_pos_is_pos, lemma_fundamental_div_mod, lemma_small_mod,
    lemma_div_multiples_vanish,
};
use vstd::arithmetic::mul::{lemma_mul_strict_inequality, lemma_mul_upper_bound};
use crate::fixed::{
    add_fx, add_fx_s, div_fx, div_fx_s, mul_fx, mul_fx_s, neg_fx, neg_fx_s, sqrt_fx, sqrt_fx_s,
    sub_fx, sub_fx_s, isqrt_s, lemma_isqrt_unique, lemma_mul_fx_unit, lemma_mul_fx_zero,
    SCALE, LIM,
};
use crate::sphere::MAX_COORD;
use crate::camera::Camera;
use crate::light::Light;
use crate::sphere::Sphere;
use crate::vec3::{
    vadd_s, vdiv_s, vdot_s, vscale_s, vsub_s, Vec3, V3,
};

/// Hits at parameter `t <= T_EPS` are rejected: they lie behind or on the
/// ray origin (a millifraction of a unit in real terms).
pub const T_EPS: i64 = 10;

/// Offset of a secondary ray's origin along the surface normal, to avoid
/// immediate self-intersection.
pub const EPS_OFF: i64 = 10;

/// The fixed background color (black), produced whenever a ray misses
/// every sphere.
pub open spec fn black_s() -> V3 {
    V3 { x: 0, y: 0, z: 0 }
}

/// Primary ray direction for a pixel at normalized device coordinates
/// `(nx, ny)` (each on the `[-SCALE, SCALE]` grid): the horizontal extent
/// is corrected by the aspect ratio and the ray looks down `-z`.
pub open spec fn ray_dir_s(aspect: int, nx: int, ny: int) -> V3 {
    V3 { x: mul_fx_s(nx, aspect), y: ny, z: -(SCALE as int) }
}

/// Ray-sphere intersection: the smallest admissible root of
/// `|O + t*D - C|^2 = r^2`, or nothing.  A root is admissible only when
/// `t > T_EPS`.  Degenerate rays (`dot(D, D) <= 0`) hit nothing.
pub open spec fn hit_t_s(s: Sphere, o: V3, d: V3) -> Option<int> {
    let oc = vsub_s(o, s.center@);
    let a = vdot_s(d, d);
    let b = vdot_s(d, oc);
    let c = sub_fx_s(vdot_s(oc, oc), mul_fx_s(s.radius as int, s.radius as int));
    let disc = sub_fx_s(mul_fx_s(b, b), mul_fx_s(a, c));
    if a <= 0 || disc < 0 {
        None
    } else {
        let t = div_fx_s(sub_fx_s(neg_fx_s(b), sqrt_fx_s(disc)), a);
        if t > T_EPS {
            Some(t)
        } else {
            None
        }
    }
}

/// Nearest hit among the first `n` spheres: the index and parameter of
/// the sphere with the smallest admissible `t`, earlier spheres winning
/// ties.
pub open spec fn nearest_upto_s(spheres: Seq<Sphere>, o: V3, d: V3, n: int) -> Option<(int, int)>
    decreases n,
{
    if n <= 0 {
        None
    } else {
        let prev = nearest_upto_s(spheres, o, d, n - 1);
        match hit_t_s(spheres[n - 1], o, d) {
            None => prev,
            Some(t) => match prev {
                None => Some((n - 1, t)),
                Some(pr) => if t < pr.1 {
                    Some((n - 1, t))
                } else {
                    prev
                },
            },
        }
    }
}

/// Nearest hit over the whole sphere list.
pub open spec fn nearest_hit_s(spheres: Seq<Sphere>, o: V3, d: V3) -> Option<(int, int)> {
    nearest_upto_s(spheres, o, d, spheres.len() as int)
}

/// Unit-ish surface normal of sphere `s` at a surface point `p`:
/// `(p - center) / radius`.
pub open spec fn normal_s(s: Sphere, p: V3) -> V3 {
    vdiv_s(vsub_s(p, s.center@), s.radius as int)
}

/// Direct lighting at hit point `p` of sphere `s`: the diffuse term
/// `max(0, dot(normal, normalize(light - p))) * intensity`, times the
/// sphere's base color.  A light sitting on `p` contributes nothing.
pub open spec fn shade_direct_s(s: Sphere, p: V3, light: Light) -> V3 {
    let n = normal_s(s, p);
    let lv = vsub_s(light.position@, p);
    let len = sqrt_fx_s(vdot_s(lv, lv));
    if len <= 0 {
        black_s()
    } else {
        let lhat = vdiv_s(lv, len);
        let cosv = vdot_s(n, lhat);
        if cosv <= 0 {
            black_s()
        } else {
            vscale_s(s.color@, mul_fx_s(cosv, light.intensity as int))
        }
    }
}

/// Mirror reflection of direction `d` about normal `n`:
/// `d - 2 * dot(d, n) * n`.
pub open spec fn reflect_s(d: V3, n: V3) -> V3 {
    vsub_s(d, vscale_s(n, add_fx_s(vdot_s(d, n), vdot_s(d, n))))
}

/// One secondary bounce: direct lighting at whatever the ray hits, or the
/// background.  The bounce limit is fixed at one — the execution model
/// has no call stack for unbounded recursion.
pub open spec fn trace_direct_s(spheres: Seq<Sphere>, o: V3, d: V3, light: Light) -> V3 {
    match nearest_hit_s(spheres, o, d) {
        None => black_s(),
        Some((i, t)) => shade_direct_s(spheres[i], vadd_s(o, vscale_s(d, t)), light),
    }
}

/// Linear blend of one color channel: `((SCALE - w) * x + w * y) / SCALE`.
pub open spec fn blend1_s(x: int, y: int, w: int) -> int {
    add_fx_s(mul_fx_s(sub_fx_s(SCALE as int, w), x), mul_fx_s(w, y))
}

/// Linear blend of two colors with weight `w` on the second.
pub open spec fn blend_s(a: V3, b: V3, w: int) -> V3 {
    V3 { x: blend1_s(a.x, b.x, w), y: blend1_s(a.y, b.y, w), z: blend1_s(a.z, b.z, w) }
}

/// The color of one pixel: generate the primary ray, find the nearest
/// sphere, shade it, follow one mirror bounce, and blend the two
/// contributions with the hit sphere's reflectivity; misses produce the
/// background color.
pub open spec fn render_color_s(
    aspect: int,
    eye: V3,
    spheres: Seq<Sphere>,
    light: Light,
    nx: int,
    ny: int,
) -> V3 {
    let d = ray_dir_s(aspect, nx, ny);
    match nearest_hit_s(spheres, eye, d) {
        None => black_s(),
        Some((i, t)) => {
            let s = spheres[i];
            let p = vadd_s(eye, vscale_s(d, t));
            let direct = shade_direct_s(s, p, light);
            let n = normal_s(s, p);
            let rorig = vadd_s(p, vscale_s(n, EPS_OFF as int));
            let rdir = reflect_s(d, n);
            let reflected = trace_direct_s(spheres, rorig, rdir, light);
            blend_s(direct, reflected, s.reflectivity as int)
        },
    }
}

/// Primary ray direction for a pixel.
pub fn ray_dir(aspect: i64, nx: i64, ny: i64) -> (d: Vec3)
    ensures
        d@ == ray_dir_s(aspect as int, nx as int, ny as int),
{
    Vec3 { x: mul_fx(nx, aspect), y: ny, z: -SCALE }
}

/// Ray-sphere intersection test.
pub fn intersect(s: &Sphere, o: Vec3, d: Vec3) -> (r: Option<i64>)
    ensures
        match r {
            Some(t) => hit_t_s(*s, o@, d@) == Some(t as int),
            None => hit_t_s(*s, o@, d@) is None,
        },
{
    let oc = o.vsub(s.center);
    let a = d.vdot(d);
    let b = d.vdot(oc);
    let c = sub_fx(oc.vdot(oc), mul_fx(s.radius, s.radius));
    let disc = sub_fx(mul_fx(b, b), mul_fx(a, c));
    if a <= 0 || disc < 0 {
        None
    } else {
        let t = div_fx(sub_fx(neg_fx(b), sqrt_fx(disc)), a);
        if t > T_EPS {
            Some(t)
        } else {
            None
        }
    }
}

/// Nearest-hit search over the full sphere list, front to back.  The
/// result does not depend on the list order except to break exact ties:
/// the returned `t` is the minimum admissible hit parameter of any sphere
/// (see `lemma_nearest_hit_minimal`).
pub fn nearest_hit(spheres: &Vec<Sphere>, o: Vec3, d: Vec3) -> (r: Option<(usize, i64)>)
    ensures
        match r {
            Some(it) => nearest_hit_s(spheres@, o@, d@) == Some((it.0 as int, it.1 as int))
                && it.0 < spheres@.len(),
            None => nearest_hit_s(spheres@, o@, d@) is None,
        },
{
    let mut best: Option<(usize, i64)> = None;
    let mut i: usize = 0;
    while i < spheres.len()
        invariant
            i <= spheres@.len(),
            match best {
                Some(it) => nearest_upto_s(spheres@, o@, d@, i as int)
                    == Some((it.0 as int, it.1 as int)) && it.0 < spheres@.len(),
                None => nearest_upto_s(spheres@, o@, d@, i as int) is None,
            },
        decreases spheres@.len() - i,
    {
        match intersect(&spheres[i], o, d) {
            Some(t) => {
                match best {
                    Some(it) => {
                        if t < it.1 {
                            best = Some((i, t));
                        }
                    },
                    None => {
                        best = Some((i, t));
                    },
                }
            },
            None => {},
        }
        i = i + 1;
    }
    best
}

/// Direct lighting at a hit point.
pub fn shade_direct(s: &Sphere, p: Vec3, light: &Light) -> (c: Vec3)
    requires
        s.radius > 0,
    ensures
        c@ == shade_direct_s(*s, p@, *light),
{
    let n = p.vsub(s.center).vdiv(s.radius);
    let lv = light.position.vsub(p);
    let len = sqrt_fx(lv.vdot(lv));
    if len <= 0 {
        Vec3 { x: 0, y: 0, z: 0 }
    } else {
        let lhat = lv.vdiv(len);
        let cosv = n.vdot(lhat);
        if cosv <= 0 {
            Vec3 { x: 0, y: 0, z: 0 }
        } else {
            s.color.vscale(mul_fx(cosv, light.intensity))
        }
    }
}

/// One secondary bounce: direct lighting at the nearest hit, or the
/// background color.
pub fn trace_direct(spheres: &Vec<Sphere>, o: Vec3, d: Vec3, light: &Light) -> (c: Vec3)
    requires
        forall|i: int| 0 <= i < spheres@.len() ==> spheres@[i].radius > 0,
    ensures
        c@ == trace_direct_s(spheres@, o@, d@, *light),
{
    match nearest_hit(spheres, o, d) {
        None => Vec3 { x: 0, y: 0, z: 0 },
        Some(it) => {
            let s = spheres[it.0];
            shade_direct(&s, o.vadd(d.vscale(it.1)), light)
        },
    }
}

/// Linear blend of two colors with weight `w` on the second.
pub fn blend(a: Vec3, b: Vec3, w: i64) -> (c: Vec3)
    ensures
        c@ == blend_s(a@, b@, w as int),
{
    Vec3 {
        x: add_fx(mul_fx(sub_fx(SCALE, w), a.x), mul_fx(w, b.x)),
        y: add_fx(mul_fx(sub_fx(SCALE, w), a.y), mul_fx(w, b.y)),
        z: add_fx(mul_fx(sub_fx(SCALE, w), a.z), mul_fx(w, b.z)),
    }
}

/// The color of one pixel, exactly the spec-level `render_color_s` of the
/// same inputs: pure, stateless, reproducible.
pub fn render_pixel(
    camera: &Camera,
    spheres: &Vec<Sphere>,
    light: &Light,
    nx: i64,
    ny: i64,
) -> (c: Vec3)
    requires
        camera.wf(),
        forall|i: int| 0 <= i < spheres@.len() ==> spheres@[i].radius > 0,
    ensures
        c@ == render_color_s(
            camera.aspect_fx_s(), camera.position@, spheres@, *light, nx as int, ny as int),
{
    let aspect = camera.aspect_fx();
    let d = ray_dir(aspect, nx, ny);
    let eye = camera.position;
    match nearest_hit(spheres, eye, d) {
        None => Vec3 { x: 0, y: 0, z: 0 },
        Some(it) => {
            let s = spheres[it.0];
            let p = eye.vadd(d.vscale(it.1));
            let direct = shade_direct(&s, p, light);
            let n = p.vsub(s.center).vdiv(s.radius);
            let rorig = p.vadd(n.vscale(EPS_OFF));
            let rdir = d.vsub(n.vscale(add_fx(d.vdot(n), d.vdot(n))));
            let reflected = trace_direct(spheres, rorig, rdir, light);
            blend(direct, reflected, s.reflectivity)
        },
    }
}


/// The nearest-hit search returns the minimum admissible hit parameter of
/// any sphere in the prefix, so the parameter does not depend on the list
/// order; exact ties resolve to the earliest sphere.
pub proof fn lemma_nearest_upto_minimal(spheres: Seq<Sphere>, o: V3, d: V3, n: int)
    requires
        n <= spheres.len(),
    ensures
        nearest_upto_s(spheres, o, d, n) is None
            ==> forall|j: int| 0 <= j < n ==> hit_t_s(spheres[j], o, d) is None,
        nearest_upto_s(spheres, o, d, n) matches Some(it) ==> {
            &&& 0 <= it.0 < n
            &&& hit_t_s(spheres[it.0], o, d) == Some(it.1)
            &&& forall|j: int| 0 <= j < n
                ==> ((#[trigger] hit_t_s(spheres[j], o, d)) matches Some(tj) ==> it.1 <= tj)
        },
    decreases n,
{
    if n > 0 {
        lemma_nearest_upto_minimal(spheres, o, d, n - 1);
    }
}

/// Order independence of the nearest hit over the whole list: the returned
/// parameter is the minimum admissible `t` among all spheres, and a miss
/// means no sphere admits any hit.
pub proof fn lemma_nearest_hit_minimal(spheres: Seq<Sphere>, o: V3, d: V3)
    ensures
        nearest_hit_s(spheres, o, d) is None
            ==> forall|j: int| 0 <= j < spheres.len() ==> hit_t_s(spheres[j], o, d) is None,
        nearest_hit_s(spheres, o, d) matches Some(it) ==> {
            &&& 0 <= it.0 < spheres.len()
            &&& hit_t_s(spheres[it.0], o, d) == Some(it.1)
            &&& forall|j: int| 0 <= j < spheres.len()
                ==> ((#[trigger] hit_t_s(spheres[j], o, d)) matches Some(tj) ==> it.1 <= tj)
        },
{
    lemma_nearest_upto_minimal(spheres, o, d, spheres.len() as int);
}

/// A ray that misses every sphere produces exactly the background color.
pub proof fn lemma_miss_is_background(
    aspect: int,
    eye: V3,
    spheres: Seq<Sphere>,
    light: Light,
    nx: int,
    ny: int,
)
    requires
        nearest_hit_s(spheres, eye, ray_dir_s(aspect, nx, ny)) is None,
    ensures
        render_color_s(aspect, eye, spheres, light, nx, ny) == black_s(),
{
}

/// Every color a shading step produces stays inside the representable
/// band, component by component.
pub proof fn lemma_shade_in_band(s: Sphere, p: V3, light: Light)
    ensures
        -(LIM as int) <= shade_direct_s(s, p, light).x <= LIM as int,
        -(LIM as int) <= shade_direct_s(s, p, light).y <= LIM as int,
        -(LIM as int) <= shade_direct_s(s, p, light).z <= LIM as int,
{
}

/// The one-bounce trace stays inside the representable band too.
pub proof fn lemma_trace_in_band(spheres: Seq<Sphere>, o: V3, d: V3, light: Light)
    ensures
        -(LIM as int) <= trace_direct_s(spheres, o, d, light).x <= LIM as int,
        -(LIM as int) <= trace_direct_s(spheres, o, d, light).y <= LIM as int,
        -(LIM as int) <= trace_direct_s(spheres, o, d, light).z <= LIM as int,
{
    match nearest_hit_s(spheres, o, d) {
        None => {},
        Some(it) => {
            lemma_shade_in_band(spheres[it.0], vadd_s(o, vscale_s(d, it.1)), light);
        },
    }
}

/// Reflection blend extremes: weight 0 returns the first color exactly and
/// weight `SCALE` (a perfect mirror) the second, for colors inside the
/// representable band.
pub proof fn lemma_blend_extremes(a: V3, b: V3, w: int)
    requires
        -(LIM as int) <= a.x <= LIM as int,
        -(LIM as int) <= a.y <= LIM as int,
        -(LIM as int) <= a.z <= LIM as int,
        -(LIM as int) <= b.x <= LIM as int,
        -(LIM as int) <= b.y <= LIM as int,
        -(LIM as int) <= b.z <= LIM as int,
    ensures
        w == 0 ==> blend_s(a, b, w) == a,
        w == SCALE ==> blend_s(a, b, w) == b,
{
    if w == 0 {
        lemma_mul_fx_unit(a.x);
        lemma_mul_fx_unit(a.y);
        lemma_mul_fx_unit(a.z);
        lemma_mul_fx_zero(b.x);
        lemma_mul_fx_zero(b.y);
        lemma_mul_fx_zero(b.z);
    }
    if w == SCALE {
        lemma_mul_fx_unit(b.x);
        lemma_mul_fx_unit(b.y);
        lemma_mul_fx_unit(b.z);
        lemma_mul_fx_zero(a.x);
        lemma_mul_fx_zero(a.y);
        lemma_mul_fx_zero(a.z);
    }
}

/// Reflection blend at the pixel level: a hit on a fully diffuse sphere
/// (reflectivity 0) renders exactly the direct-lighting term, and a hit on
/// a perfect mirror (reflectivity `SCALE`) exactly the reflected term.
pub proof fn lemma_reflection_blend_extremes(
    aspect: int,
    eye: V3,
    spheres: Seq<Sphere>,
    light: Light,
    nx: int,
    ny: int,
)
    ensures
        ({
            let d = ray_dir_s(aspect, nx, ny);
            nearest_hit_s(spheres, eye, d) matches Some(it) ==> {
                let s = spheres[it.0];
                let p = vadd_s(eye, vscale_s(d, it.1));
                let n = normal_s(s, p);
                let rorig = vadd_s(p, vscale_s(n, EPS_OFF as int));
                let rdir = reflect_s(d, n);
                &&& (s.reflectivity == 0 ==> render_color_s(aspect, eye, spheres, light, nx, ny)
                    == shade_direct_s(s, p, light))
                &&& (s.reflectivity == SCALE ==> render_color_s(
                    aspect, eye, spheres, light, nx, ny)
                    == trace_direct_s(spheres, rorig, rdir, light))
            }
        }),
{
    let d = ray_dir_s(aspect, nx, ny);
    match nearest_hit_s(spheres, eye, d) {
        None => {},
        Some(it) => {
            let s = spheres[it.0];
            let p = vadd_s(eye, vscale_s(d, it.1));
            let n = normal_s(s, p);
            let rorig = vadd_s(p, vscale_s(n, EPS_OFF as int));
            let rdir = reflect_s(d, n);
            lemma_shade_in_band(s, p, light);
            lemma_trace_in_band(spheres, rorig, rdir, light);
            lemma_blend_extremes(
                shade_direct_s(s, p, light),
                trace_direct_s(spheres, rorig, rdir, light),
                s.reflectivity as int,
            );
        },
    }
}


/// Head-on hit distance is exact: a unit ray fired down `-z` straight at
/// the center of a sphere whose squared radius sits on the `SCALE` grid
/// hits it at parameter `|origin - center| - radius`, exactly.
pub proof fn lemma_head_on_hit(s: Sphere, o: V3)
    requires
        s.wf(),
        o.x == s.center@.x,
        o.y == s.center@.y,
        -(MAX_COORD as int) <= o.z <= MAX_COORD as int,
        o.z - s.center@.z > s.radius + T_EPS,
        ((s.radius as int) * (s.radius as int)) % (SCALE as int) == 0,
    ensures
        hit_t_s(s, o, (V3 { x: 0, y: 0, z: -(SCALE as int) }))
            == Some(o.z - s.center@.z - s.radius),
{
    let sc = SCALE as int;
    let c = s.center@;
    let r = s.radius as int;
    let dist = o.z - c.z;
    let d = V3 { x: 0, y: 0, z: -sc };
    let oc = vsub_s(o, c);
    assert(oc == (V3 { x: 0, y: 0, z: dist }));

    // a = dot(d, d) is exactly one (SCALE) on the fixed-point grid.
    let a = vdot_s(d, d);
    assert((-sc) * (-sc) == sc * sc) by (nonlinear_arith);
    assert(a == sc);

    // b = dot(d, oc) = -dist, exactly.
    let b = vdot_s(d, oc);
    assert((-sc) * dist == -(sc * dist)) by (nonlinear_arith);
    lemma_div_multiples_vanish(dist, sc);
    assert(b == -dist);

    // dot(oc, oc) = dist^2 / SCALE (floored), well inside the band.
    assert(0 < dist <= 2 * MAX_COORD);
    lemma_mul_upper_bound(dist, 2 * MAX_COORD as int, dist, 2 * MAX_COORD as int);
    lemma_div_pos_is_pos(dist * dist, sc);
    lemma_div_is_ordered(dist * dist, 4 * (MAX_COORD as int) * (MAX_COORD as int), sc);
    let q2 = (dist * dist) / sc;
    assert(vdot_s(oc, oc) == q2);

    // radius^2 / SCALE is exact because radius^2 is on the SCALE grid.
    lemma_mul_upper_bound(r, MAX_COORD as int, r, MAX_COORD as int);
    lemma_div_pos_is_pos(r * r, sc);
    lemma_div_is_ordered(r * r, (MAX_COORD as int) * (MAX_COORD as int), sc);
    let rq = (r * r) / sc;
    lemma_fundamental_div_mod(r * r, sc);
    assert(r * r == sc * rq);
    assert(mul_fx_s(r, r) == rq);

    // c term: (dist^2 - radius^2) / SCALE, non-negative.
    lemma_mul_strict_inequality(r, dist, r);
    lemma_mul_strict_inequality(r, dist, dist);
    assert(r * r < dist * dist);
    lemma_div_is_ordered(r * r, dist * dist, sc);
    let ct = sub_fx_s(vdot_s(oc, oc), mul_fx_s(r, r));
    assert(ct == q2 - rq);

    // discriminant: b^2/SCALE - 1 * ct = radius^2 / SCALE, exactly.
    assert((-dist) * (-dist) == dist * dist) by (nonlinear_arith);
    assert(mul_fx_s(b, b) == q2);
    lemma_mul_fx_unit(ct);
    let disc = sub_fx_s(mul_fx_s(b, b), mul_fx_s(a, ct));
    assert(disc == rq);

    // the radius is at least one SCALE-grid step, so the discriminant is
    // positive and its square root is exactly the radius.
    if r * r < sc {
        lemma_small_mod((r * r) as nat, sc as nat);
        lemma_mul_strict_inequality(0, r, r);
        assert(false);
    }
    lemma_div_is_ordered(sc, r * r, sc);
    assert(sc / sc == 1);
    assert(disc >= 1);
    assert(sqrt_fx_s(disc) == isqrt_s((disc * sc) as nat));
    assert(disc * sc == sc * rq) by (nonlinear_arith)
        requires disc == rq;
    assert((r + 1) * (r + 1) > r * r) by (nonlinear_arith)
        requires r >= 0;
    lemma_isqrt_unique((r * r) as nat, r as nat);
    assert(sqrt_fx_s(disc) == r);

    // numerator and quotient: t = dist - radius, exactly.
    let num = sub_fx_s(neg_fx_s(b), sqrt_fx_s(disc));
    assert(num == dist - r);
    assert((dist - r) * sc == sc * (dist - r)) by (nonlinear_arith);
    lemma_div_multiples_vanish(dist - r, sc);
    assert(div_fx_s(num, a) == dist - r);
}

} // verus!
