//! The shared material color: a linear RGB triple, each channel a
//! fixed-point value in `[0, UNIT]`, together with a dirty flag that tells
//! the frame tick whether the color still has to be broadcast onto the
//! scene's materials.

use vstd::prelude::*;
use crate::store::{Store, SceneObject, broadcasted};

verus! {

/// Fixed-point scale: `UNIT` stands for the real value 1.0.
pub const UNIT: i64 = 1000;

/// The value `v` forced into the interval `[lo, hi]`.
pub open spec fn clamped(v: int, lo: int, hi: int) -> int {
    if v < lo {
        lo
    } else if v > hi {
        hi
    } else {
        v
    }
}

/// Forces `v` into the interval `[lo, hi]`.
pub fn clamp_i64(v: i64, lo: i64, hi: i64) -> (r: i64)
    requires
        lo <= hi,
    ensures
        r == clamped(v as int, lo as int, hi as int),
{
    if v < lo {
        lo
    } else if v > hi {
        hi
    } else {
        v
    }
}

/// A linear RGB triple in fixed point: `UNIT` per channel stands for 1.0.
#[derive(Clone, Copy, Debug, PartialEq, Eq, Structural)]
pub struct Rgb {
    pub r: i64,
    pub g: i64,
    pub b: i64,
}

impl Rgb {
    /// Every channel lies in `[0, UNIT]`, i.e. the color is a valid
    /// (clamped) linear RGB value.
    pub open spec fn wf(self) -> bool {
        &&& 0 <= self.r <= UNIT
        &&& 0 <= self.g <= UNIT
        &&& 0 <= self.b <= UNIT
    }
}

/// The triple `(r, g, b)` with every channel clamped to `[0, UNIT]`.
pub open spec fn clamped_rgb(r: int, g: int, b: int) -> Rgb {
    Rgb {
        r: clamped(r, 0, UNIT as int) as i64,
        g: clamped(g, 0, UNIT as int) as i64,
        b: clamped(b, 0, UNIT as int) as i64,
    }
}

/// The shared material color and its dirty flag.
pub struct ColorState {
    pub rgb: Rgb,
    pub dirty: bool,
}

impl ColorState {
    /// The stored color is always a valid clamped color.
    pub open spec fn wf(self) -> bool {
        self.rgb.wf()
    }

    /// What `set` leaves behind: the clamped triple, marked dirty.
    pub open spec fn spec_set(self, r: int, g: int, b: int) -> ColorState {
        ColorState { rgb: clamped_rgb(r, g, b), dirty: true }
    }

    /// Stores the triple, clamping every channel to `[0, UNIT]`, and marks
    /// the color dirty so that the next broadcast picks it up.
    pub fn set(&mut self, r: i64, g: i64, b: i64)
        ensures
            *final(self) == old(self).spec_set(r as int, g as int, b as int),
            final(self).wf(),
    {
        self.rgb = Rgb {
            r: clamp_i64(r, 0, UNIT),
            g: clamp_i64(g, 0, UNIT),
            b: clamp_i64(b, 0, UNIT),
        };
        self.dirty = true;
    }

    /// Broadcasts the stored color onto every material of the store when
    /// the color is dirty, and clears the dirty flag; a clean color leaves
    /// the store untouched. Transforms are never affected, so one broadcast
    /// per frame gives every material the frame's final color.
    pub fn apply(&mut self, store: &mut Store)
        ensures
            final(self).rgb == old(self).rgb,
            !final(self).dirty,
            old(self).dirty ==> broadcasted(
                old(store).objects@,
                final(store).objects@,
                old(self).rgb,
            ),
            !old(self).dirty ==> *final(store) == *old(store) && *final(self) == *old(self),
            old(store).wf() ==> final(store).wf(),
    {
        if self.dirty {
            let rgb = self.rgb;
            let paint = (|_c: Rgb| -> (r: Rgb)
                ensures
                    r == rgb,
                { rgb });
            store.for_each_material(&paint);
            self.dirty = false;
        }
    }

    /// Draws three independent uniform samples in `[0, UNIT)` and stores
    /// them through `set`. The samples come from the process's thread-local
    /// random generator, so nothing more than their range can be promised.
    pub fn randomize(&mut self)
        ensures
            final(self).wf(),
            0 <= final(self).rgb.r < UNIT,
            0 <= final(self).rgb.g < UNIT,
            0 <= final(self).rgb.b < UNIT,
            final(self).dirty,
            exists|r: int, g: int, b: int|
                #![auto]
                0 <= r < UNIT && 0 <= g < UNIT && 0 <= b < UNIT && *final(self) == old(
                    self,
                ).spec_set(r, g, b),
    {
        let r = sample_channel();
        let g = sample_channel();
        let b = sample_channel();
        self.set(r, g, b);
        proof {
            assert(*self == old(self).spec_set(r as int, g as int, b as int));
        }
    }
}

impl Default for ColorState {
    /// The default color is opaque white, `(1.0, 1.0, 1.0)`, not yet dirty.
    fn default() -> (s: ColorState)
        ensures
            s.rgb == (Rgb { r: UNIT, g: UNIT, b: UNIT }),
            !s.dirty,
            s.wf(),
    {
        ColorState { rgb: Rgb { r: UNIT, g: UNIT, b: UNIT }, dirty: false }
    }
}

/// Law: `set` of a triple whose channels all lie in `[0, UNIT]` stores that
/// triple exactly and marks it dirty, so the broadcast that follows paints
/// every material with exactly that triple: for every store entry that
/// carries a material, its color after the broadcast is `(r, g, b)`.
pub proof fn lemma_set_then_apply_exact(
    s: ColorState,
    before: Seq<SceneObject>,
    after: Seq<SceneObject>,
    r: int,
    g: int,
    b: int,
    i: int,
)
    requires
        0 <= r <= UNIT,
        0 <= g <= UNIT,
        0 <= b <= UNIT,
        broadcasted(before, after, s.spec_set(r, g, b).rgb),
        0 <= i < before.len(),
        before[i].material is Some,
    ensures
        s.spec_set(r, g, b).rgb == (Rgb { r: r as i64, g: g as i64, b: b as i64 }),
        s.spec_set(r, g, b).dirty,
        after[i].material == Some(Rgb { r: r as i64, g: g as i64, b: b as i64 }),
{
}

/// Law: `set` clamps every out-of-range channel to the nearest bound; the
/// stored channel is the bound itself when the input lies beyond it, and
/// the input unchanged when it lies within.
pub proof fn lemma_set_clamps(s: ColorState, r: int, g: int, b: int)
    ensures
        s.spec_set(r, g, b).rgb.wf(),
        r < 0 ==> s.spec_set(r, g, b).rgb.r == 0,
        r > UNIT ==> s.spec_set(r, g, b).rgb.r == UNIT,
        0 <= r <= UNIT ==> s.spec_set(r, g, b).rgb.r == r,
        g < 0 ==> s.spec_set(r, g, b).rgb.g == 0,
        g > UNIT ==> s.spec_set(r, g, b).rgb.g == UNIT,
        0 <= g <= UNIT ==> s.spec_set(r, g, b).rgb.g == g,
        b < 0 ==> s.spec_set(r, g, b).rgb.b == 0,
        b > UNIT ==> s.spec_set(r, g, b).rgb.b == UNIT,
        0 <= b <= UNIT ==> s.spec_set(r, g, b).rgb.b == b,
{
}

/// Law: edits within one frame coalesce, last write wins. Two `set` calls
/// in a row leave exactly the state that the second alone would leave, so
/// the frame's single broadcast reflects only the final value and no
/// intermediate one.
pub proof fn lemma_set_coalesces(
    s: ColorState,
    r1: int,
    g1: int,
    b1: int,
    r2: int,
    g2: int,
    b2: int,
)
    ensures
        s.spec_set(r1, g1, b1).spec_set(r2, g2, b2) == s.spec_set(r2, g2, b2),
{
}

/// Relies on rand::thread_rng and rand::Rng::gen_range: a sample drawn from
/// the given half-open range, here `[0, UNIT)`.
#[verifier::external_body]
fn sample_channel() -> (r: i64)
    ensures
        0 <= r < UNIT,
{
    rand::Rng::gen_range(&mut rand::thread_rng(), 0..UNIT)
}

} // verus!
