//! Three-component fixed-point vectors.
//!
//! `Vec3` is the executable value type; its view `V3` carries the same
//! three components as mathematical integers, and every executable
//! operation is proved equal to its spec-level counterpart.

use vstd::prelude::*;

verus! {

use crate::fixed::{add_fx, add_fx_s, div_fx, div_fx_s, mul_fx, mul_fx_s, sub_fx, sub_fx_s};

/// Spec-level vector: three unbounded integer components.
pub ghost struct V3 {
    pub x: int,
    pub y: int,
    pub z: int,
}

/// Executable fixed-point vector.
#[derive(Clone, Copy, Debug, PartialEq, Eq, Structural)]
pub struct Vec3 {
    pub x: i64,
    pub y: i64,
    pub z: i64,
}

impl View for Vec3 {
    type V = V3;

    open spec fn view(&self) -> V3 {
        V3 { x: self.x as int, y: self.y as int, z: self.z as int }
    }
}

/// Component-wise saturating sum.
pub open spec fn vadd_s(a: V3, b: V3) -> V3 {
    V3 { x: add_fx_s(a.x, b.x), y: add_fx_s(a.y, b.y), z: add_fx_s(a.z, b.z) }
}

/// Component-wise saturating difference.
pub open spec fn vsub_s(a: V3, b: V3) -> V3 {
    V3 { x: sub_fx_s(a.x, b.x), y: sub_fx_s(a.y, b.y), z: sub_fx_s(a.z, b.z) }
}

/// Scale a vector by a fixed-point scalar.
pub open spec fn vscale_s(a: V3, k: int) -> V3 {
    V3 { x: mul_fx_s(a.x, k), y: mul_fx_s(a.y, k), z: mul_fx_s(a.z, k) }
}

/// Divide a vector by a fixed-point scalar (0 divisor yields the zero vector).
pub open spec fn vdiv_s(a: V3, k: int) -> V3 {
    V3 { x: div_fx_s(a.x, k), y: div_fx_s(a.y, k), z: div_fx_s(a.z, k) }
}

/// Fixed-point dot product: the saturating sum of the component products.
pub open spec fn vdot_s(a: V3, b: V3) -> int {
    add_fx_s(add_fx_s(mul_fx_s(a.x, b.x), mul_fx_s(a.y, b.y)), mul_fx_s(a.z, b.z))
}

impl Vec3 {
    /// Saturating vector sum.
    pub fn vadd(self, other: Vec3) -> (r: Vec3)
        ensures
            r@ == vadd_s(self@, other@),
    {
        Vec3 { x: add_fx(self.x, other.x), y: add_fx(self.y, other.y), z: add_fx(self.z, other.z) }
    }

    /// Saturating vector difference.
    pub fn vsub(self, other: Vec3) -> (r: Vec3)
        ensures
            r@ == vsub_s(self@, other@),
    {
        Vec3 { x: sub_fx(self.x, other.x), y: sub_fx(self.y, other.y), z: sub_fx(self.z, other.z) }
    }

    /// Scale by a fixed-point scalar.
    pub fn vscale(self, k: i64) -> (r: Vec3)
        ensures
            r@ == vscale_s(self@, k as int),
    {
        Vec3 { x: mul_fx(self.x, k), y: mul_fx(self.y, k), z: mul_fx(self.z, k) }
    }

    /// Divide by a positive fixed-point scalar.
    pub fn vdiv(self, k: i64) -> (r: Vec3)
        requires
            k > 0,
        ensures
            r@ == vdiv_s(self@, k as int),
    {
        Vec3 { x: div_fx(self.x, k), y: div_fx(self.y, k), z: div_fx(self.z, k) }
    }

    /// Fixed-point dot product.
    pub fn vdot(self, other: Vec3) -> (r: i64)
        ensures
            r as int == vdot_s(self@, other@),
    {
        add_fx(add_fx(mul_fx(self.x, other.x), mul_fx(self.y, other.y)), mul_fx(self.z, other.z))
    }
}

} // verus!
