//! Transforms in fixed point: a position, a rotation quaternion and a
//! per-axis scale, together with the drag delta that the gizmo produces and
//! the `combine` step that applies such a delta.
//!
//! Rotation components and scale factors use the scale of [`crate::color::UNIT`]
//! (`UNIT` stands for 1.0). Rotation deltas compose by quaternion
//! multiplication, translation deltas add, scale deltas multiply. Every
//! result is kept inside the world's bounds, so a well-formed transform
//! stays well-formed.

use vstd::prelude::*;
use vstd::arithmetic::div_mod::lemma_div_multiples_vanish;
use crate::color::{UNIT, clamped, clamp_i64};

verus! {

/// World bound: positions and translation deltas lie in `[-COORD_MAX, COORD_MAX]`.
pub const COORD_MAX: i64 = 1_000_000_000_000;

/// Largest scale component and scale factor: 1000.0 in fixed point.
pub const SCALE_MAX: i64 = 1_000_000;

/// An integer vector, used for positions, translation deltas and scales.
#[derive(Clone, Copy, Debug, PartialEq, Eq, Structural)]
pub struct Vec3 {
    pub x: i64,
    pub y: i64,
    pub z: i64,
}

/// A rotation quaternion in fixed point: a unit quaternion has every
/// component in `[-UNIT, UNIT]`.
#[derive(Clone, Copy, Debug, PartialEq, Eq, Structural)]
pub struct Quat {
    pub w: i64,
    pub x: i64,
    pub y: i64,
    pub z: i64,
}

impl Quat {
    /// Every component lies in the unit box `[-UNIT, UNIT]`.
    pub open spec fn wf(self) -> bool {
        &&& -UNIT <= self.w <= UNIT
        &&& -UNIT <= self.x <= UNIT
        &&& -UNIT <= self.y <= UNIT
        &&& -UNIT <= self.z <= UNIT
    }

    /// The identity rotation.
    pub open spec fn spec_identity() -> Quat {
        Quat { w: UNIT, x: 0, y: 0, z: 0 }
    }

    /// Returns the identity rotation.
    pub fn identity() -> (q: Quat)
        ensures
            q == Quat::spec_identity(),
            q.wf(),
    {
        Quat { w: UNIT, x: 0, y: 0, z: 0 }
    }
}

/// One fixed-point component of a quaternion product: the raw product sum
/// rescaled by `UNIT` (floor division) and kept in the unit box.
pub open spec fn quat_comp(raw: int) -> int {
    clamped(raw / (UNIT as int), -UNIT as int, UNIT as int)
}

/// The fixed-point Hamilton product `a * b`, each component rescaled and
/// kept in the unit box.
pub open spec fn spec_quat_mul(a: Quat, b: Quat) -> Quat {
    Quat {
        w: quat_comp(a.w * b.w - a.x * b.x - a.y * b.y - a.z * b.z) as i64,
        x: quat_comp(a.w * b.x + a.x * b.w + a.y * b.z - a.z * b.y) as i64,
        y: quat_comp(a.w * b.y - a.x * b.z + a.y * b.w + a.z * b.x) as i64,
        z: quat_comp(a.w * b.z + a.x * b.y - a.y * b.x + a.z * b.w) as i64,
    }
}

/// Floor division by `UNIT` (rounds toward minus infinity, as the
/// specification operator `/` does).
fn floor_div_unit(v: i64) -> (q: i64)
    requires
        -2_000_000_000_000 <= v <= 2_000_000_000_000,
    ensures
        q == v as int / UNIT as int,
{
    if v >= 0 {
        v / UNIT
    } else {
        let m: i64 = -v;
        let c: i64 = (m + UNIT - 1) / UNIT;
        assert(v as int / (UNIT as int) == -((m as int + UNIT - 1) / (UNIT as int)))
            by (nonlinear_arith)
            requires
                v < 0,
                m == -v,
                -2_000_000_000_000 <= v,
        ;
        -c
    }
}

/// Multiplies two components of the unit box; the product is bounded by
/// `UNIT * UNIT`.
fn mul_unit(a: i64, b: i64) -> (r: i64)
    requires
        -UNIT <= a <= UNIT,
        -UNIT <= b <= UNIT,
    ensures
        r == a as int * b as int,
        -1_000_000 <= r <= 1_000_000,
{
    proof {
        assert(-1_000_000 <= a as int * b as int <= 1_000_000) by (nonlinear_arith)
            requires
                -UNIT <= a <= UNIT,
                -UNIT <= b <= UNIT,
        ;
    }
    a * b
}

/// Computes the fixed-point Hamilton product `a * b`.
pub fn quat_mul(a: &Quat, b: &Quat) -> (r: Quat)
    requires
        a.wf(),
        b.wf(),
    ensures
        r == spec_quat_mul(*a, *b),
        r.wf(),
{
    let rw: i64 = mul_unit(a.w, b.w) - mul_unit(a.x, b.x) - mul_unit(a.y, b.y) - mul_unit(
        a.z,
        b.z,
    );
    let rx: i64 = mul_unit(a.w, b.x) + mul_unit(a.x, b.w) + mul_unit(a.y, b.z) - mul_unit(
        a.z,
        b.y,
    );
    let ry: i64 = mul_unit(a.w, b.y) - mul_unit(a.x, b.z) + mul_unit(a.y, b.w) + mul_unit(
        a.z,
        b.x,
    );
    let rz: i64 = mul_unit(a.w, b.z) + mul_unit(a.x, b.y) - mul_unit(a.y, b.x) + mul_unit(
        a.z,
        b.w,
    );
    Quat {
        w: clamp_i64(floor_div_unit(rw), -UNIT, UNIT),
        x: clamp_i64(floor_div_unit(rx), -UNIT, UNIT),
        y: clamp_i64(floor_div_unit(ry), -UNIT, UNIT),
        z: clamp_i64(floor_div_unit(rz), -UNIT, UNIT),
    }
}

/// Multiplying by the identity on the left returns a well-formed
/// quaternion unchanged.
pub proof fn lemma_quat_mul_identity_left(q: Quat)
    requires
        q.wf(),
    ensures
        spec_quat_mul(Quat::spec_identity(), q) == q,
{
    let u = UNIT as int;
    lemma_div_multiples_vanish(q.w as int, u);
    lemma_div_multiples_vanish(q.x as int, u);
    lemma_div_multiples_vanish(q.y as int, u);
    lemma_div_multiples_vanish(q.z as int, u);
}

/// A transform: position, rotation and per-axis scale.
#[derive(Clone, Copy, Debug, PartialEq, Eq, Structural)]
pub struct Transform {
    pub pos: Vec3,
    pub rot: Quat,
    pub scale: Vec3,
}

impl Transform {
    /// Position inside the world bounds, rotation in the unit box, scale
    /// components in `[0, SCALE_MAX]`.
    pub open spec fn wf(self) -> bool {
        &&& -COORD_MAX <= self.pos.x <= COORD_MAX
        &&& -COORD_MAX <= self.pos.y <= COORD_MAX
        &&& -COORD_MAX <= self.pos.z <= COORD_MAX
        &&& self.rot.wf()
        &&& 0 <= self.scale.x <= SCALE_MAX
        &&& 0 <= self.scale.y <= SCALE_MAX
        &&& 0 <= self.scale.z <= SCALE_MAX
    }
}

/// A gizmo drag delta for one frame: a translation to add, a rotation to
/// compose and per-axis scale factors to multiply by (`UNIT` is the
/// factor 1.0).
#[derive(Clone, Copy, Debug, PartialEq, Eq, Structural)]
pub struct DragDelta {
    pub translate: Vec3,
    pub rotate: Quat,
    pub scale: Vec3,
}

impl DragDelta {
    /// Translation inside the world bounds, rotation in the unit box,
    /// scale factors in `[0, SCALE_MAX]`.
    pub open spec fn wf(self) -> bool {
        &&& -COORD_MAX <= self.translate.x <= COORD_MAX
        &&& -COORD_MAX <= self.translate.y <= COORD_MAX
        &&& -COORD_MAX <= self.translate.z <= COORD_MAX
        &&& self.rotate.wf()
        &&& 0 <= self.scale.x <= SCALE_MAX
        &&& 0 <= self.scale.y <= SCALE_MAX
        &&& 0 <= self.scale.z <= SCALE_MAX
    }

    /// The delta of an idle frame: no translation, identity rotation and
    /// unit scale factors.
    pub open spec fn spec_zero() -> DragDelta {
        DragDelta {
            translate: Vec3 { x: 0, y: 0, z: 0 },
            rotate: Quat::spec_identity(),
            scale: Vec3 { x: UNIT, y: UNIT, z: UNIT },
        }
    }

    /// Returns the delta of an idle frame.
    pub fn zero() -> (d: DragDelta)
        ensures
            d == DragDelta::spec_zero(),
            d.wf(),
    {
        DragDelta {
            translate: Vec3 { x: 0, y: 0, z: 0 },
            rotate: Quat { w: UNIT, x: 0, y: 0, z: 0 },
            scale: Vec3 { x: UNIT, y: UNIT, z: UNIT },
        }
    }
}

/// One position component after a translation delta: the sum kept inside
/// the world bounds.
pub open spec fn pos_comp(p: int, d: int) -> int {
    clamped(p + d, -COORD_MAX as int, COORD_MAX as int)
}

/// One scale component after a multiplicative factor: the rescaled product
/// kept in `[0, SCALE_MAX]`.
pub open spec fn scale_comp(s: int, factor: int) -> int {
    clamped((s * factor) / (UNIT as int), 0, SCALE_MAX as int)
}

/// The transform after one gizmo drag delta: translation added, the
/// rotation delta composed on the left by quaternion multiplication, scale
/// multiplied per axis.
pub open spec fn spec_combine(t: Transform, d: DragDelta) -> Transform {
    Transform {
        pos: Vec3 {
            x: pos_comp(t.pos.x as int, d.translate.x as int) as i64,
            y: pos_comp(t.pos.y as int, d.translate.y as int) as i64,
            z: pos_comp(t.pos.z as int, d.translate.z as int) as i64,
        },
        rot: spec_quat_mul(d.rotate, t.rot),
        scale: Vec3 {
            x: scale_comp(t.scale.x as int, d.scale.x as int) as i64,
            y: scale_comp(t.scale.y as int, d.scale.y as int) as i64,
            z: scale_comp(t.scale.z as int, d.scale.z as int) as i64,
        },
    }
}

/// Adds two position components and keeps the sum inside the world bounds.
fn combine_pos_comp(p: i64, d: i64) -> (r: i64)
    requires
        -COORD_MAX <= p <= COORD_MAX,
        -COORD_MAX <= d <= COORD_MAX,
    ensures
        r == pos_comp(p as int, d as int),
{
    clamp_i64(p + d, -COORD_MAX, COORD_MAX)
}

/// Multiplies a scale component by a fixed-point factor and keeps the
/// result in `[0, SCALE_MAX]`.
fn combine_scale_comp(s: i64, factor: i64) -> (r: i64)
    requires
        0 <= s <= SCALE_MAX,
        0 <= factor <= SCALE_MAX,
    ensures
        r == scale_comp(s as int, factor as int),
{
    proof {
        assert(0 <= s as int * factor as int <= 1_000_000_000_000) by (nonlinear_arith)
            requires
                0 <= s <= SCALE_MAX,
                0 <= factor <= SCALE_MAX,
        ;
    }
    clamp_i64(floor_div_unit(s * factor), 0, SCALE_MAX)
}

/// Applies one gizmo drag delta to a transform.
pub fn combine(t: &Transform, d: &DragDelta) -> (r: Transform)
    requires
        t.wf(),
        d.wf(),
    ensures
        r == spec_combine(*t, *d),
        r.wf(),
{
    Transform {
        pos: Vec3 {
            x: combine_pos_comp(t.pos.x, d.translate.x),
            y: combine_pos_comp(t.pos.y, d.translate.y),
            z: combine_pos_comp(t.pos.z, d.translate.z),
        },
        rot: quat_mul(&d.rotate, &t.rot),
        scale: Vec3 {
            x: combine_scale_comp(t.scale.x, d.scale.x),
            y: combine_scale_comp(t.scale.y, d.scale.y),
            z: combine_scale_comp(t.scale.z, d.scale.z),
        },
    }
}

/// A drag with the idle-frame delta leaves a well-formed transform
/// bit-for-bit unchanged.
pub proof fn lemma_combine_zero(t: Transform)
    requires
        t.wf(),
    ensures
        spec_combine(t, DragDelta::spec_zero()) == t,
{
    lemma_quat_mul_identity_left(t.rot);
    let u = UNIT as int;
    lemma_div_multiples_vanish(t.scale.x as int, u);
    lemma_div_multiples_vanish(t.scale.y as int, u);
    lemma_div_multiples_vanish(t.scale.z as int, u);
    assert(t.scale.x as int * u == u * (t.scale.x as int)) by (nonlinear_arith);
    assert(t.scale.y as int * u == u * (t.scale.y as int)) by (nonlinear_arith);
    assert(t.scale.z as int * u == u * (t.scale.z as int)) by (nonlinear_arith);
}

} // verus!
