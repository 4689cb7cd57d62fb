//! The scene object store: the owner of every renderable entity (shapes,
//! lights, the camera), their transforms and their optional material
//! colors. Objects are spawned at scene setup and never removed; handles
//! are indices that only the store itself issues.

use vstd::prelude::*;
use crate::color::{Rgb, UNIT};
use crate::transform::{Transform, Vec3, Quat};

verus! {

/// What a scene object is: a pickable shape, a light, or the camera.
#[derive(Clone, Copy, Debug, PartialEq, Eq, Structural)]
pub enum ObjectKind {
    Shape,
    Light,
    Camera,
}

/// An opaque handle to a store entry, valid for the session's lifetime.
#[derive(Clone, Copy, Debug, PartialEq, Eq, Structural)]
pub struct ObjectId {
    pub idx: usize,
}

/// One renderable entity: its kind, its transform, and its material color
/// if it carries a paintable surface.
#[derive(Clone, Copy, Debug, PartialEq, Eq, Structural)]
pub struct SceneObject {
    pub kind: ObjectKind,
    pub transform: Transform,
    pub material: Option<Rgb>,
}

/// How one object may change under `for_each_material`: kind and transform
/// are untouched, an absent material stays absent, and a present material
/// color is replaced by an output of `f` on the old color.
pub open spec fn material_mapped<F: Fn(Rgb) -> Rgb>(o: SceneObject, n: SceneObject, f: F) -> bool {
    &&& n.kind == o.kind
    &&& n.transform == o.transform
    &&& (o.material is None ==> n == o)
    &&& (o.material is Some ==> n.material is Some && call_ensures(
        f,
        (o.material->Some_0,),
        n.material->Some_0,
    ))
}

/// One color broadcast onto the whole store: every object that carries a
/// material now carries the color `c`; kinds, transforms and material-less
/// objects are untouched.
pub open spec fn broadcasted(before: Seq<SceneObject>, after: Seq<SceneObject>, c: Rgb) -> bool {
    &&& after.len() == before.len()
    &&& forall|i: int|
        0 <= i < before.len() ==> {
            &&& after[i].kind == before[i].kind
            &&& after[i].transform == before[i].transform
            &&& (before[i].material is None ==> after[i] == before[i])
            &&& (before[i].material is Some ==> after[i].material == Some(c))
        }
}

/// The scene object store.
pub struct Store {
    pub objects: Vec<SceneObject>,
}

impl Store {
    /// Every object's transform is well-formed.
    pub open spec fn wf(self) -> bool {
        forall|i: int| 0 <= i < self.objects@.len() ==> self.objects@[i].transform.wf()
    }

    /// The handle names an entry of this store.
    pub open spec fn contains(self, id: ObjectId) -> bool {
        id.idx < self.objects@.len()
    }

    /// Returns an empty store.
    pub fn new() -> (s: Store)
        ensures
            s.objects@.len() == 0,
            s.wf(),
    {
        Store { objects: Vec::new() }
    }

    /// The number of objects in the store.
    pub fn len(&self) -> (n: usize)
        ensures
            n == self.objects@.len(),
    {
        self.objects.len()
    }

    /// Creates one object and returns its handle. Handles are dense
    /// indices: the new handle names the appended entry.
    pub fn spawn(&mut self, kind: ObjectKind, transform: Transform, material: Option<Rgb>) -> (id:
        ObjectId)
        requires
            transform.wf(),
            old(self).objects@.len() < usize::MAX,
        ensures
            final(self).objects@ == old(self).objects@.push(
                SceneObject { kind, transform, material },
            ),
            id.idx == old(self).objects@.len(),
            final(self).contains(id),
            old(self).wf() ==> final(self).wf(),
    {
        let id = ObjectId { idx: self.objects.len() };
        self.objects.push(SceneObject { kind, transform, material });
        proof {
            if old(self).wf() {
                assert forall|i: int| 0 <= i < self.objects@.len() implies self.objects@[i]
                    .transform.wf() by {
                    if i < old(self).objects@.len() {
                        assert(self.objects@[i] == old(self).objects@[i]);
                    }
                }
            }
        }
        id
    }

    /// Reads the transform of an existing object.
    pub fn get_transform(&self, id: ObjectId) -> (t: Transform)
        requires
            self.contains(id),
        ensures
            t == self.objects@[id.idx as int].transform,
    {
        self.objects[id.idx].transform
    }

    /// Overwrites the transform of an existing object; every other entry
    /// and the object's kind and material are untouched. A handle that the
    /// store never issued is a programming defect, excluded by the
    /// precondition.
    pub fn set_transform(&mut self, id: ObjectId, t: Transform)
        requires
            old(self).contains(id),
            t.wf(),
        ensures
            final(self).objects@ == old(self).objects@.update(
                id.idx as int,
                SceneObject {
                    kind: old(self).objects@[id.idx as int].kind,
                    transform: t,
                    material: old(self).objects@[id.idx as int].material,
                },
            ),
            old(self).wf() ==> final(self).wf(),
    {
        let kind = self.objects[id.idx].kind;
        let material = self.objects[id.idx].material;
        self.objects[id.idx] = SceneObject { kind, transform: t, material };
        proof {
            assert(final(self).objects@ == old(self).objects@.update(
                id.idx as int,
                SceneObject { kind, transform: t, material },
            ));
        }
    }

    /// Applies a pure color transformation to every live material in one
    /// pass: each present material color is replaced by `f` of it; kinds,
    /// transforms and absent materials are untouched.
    pub fn for_each_material<F: Fn(Rgb) -> Rgb>(&mut self, f: &F)
        requires
            forall|c: Rgb| call_requires(*f, (c,)),
        ensures
            final(self).objects@.len() == old(self).objects@.len(),
            forall|i: int|
                0 <= i < old(self).objects@.len() ==> material_mapped(
                    old(self).objects@[i],
                    final(self).objects@[i],
                    *f,
                ),
            old(self).wf() ==> final(self).wf(),
    {
        let n = self.objects.len();
        let mut i: usize = 0;
        while i < n
            invariant
                n == self.objects@.len(),
                self.objects@.len() == old(self).objects@.len(),
                i <= n,
                forall|j: int| i <= j < n ==> self.objects@[j] == old(self).objects@[j],
                forall|j: int|
                    0 <= j < i ==> material_mapped(old(self).objects@[j], self.objects@[j], *f),
                forall|c: Rgb| call_requires(*f, (c,)),
            decreases n - i,
        {
            let o = self.objects[i];
            match o.material {
                Some(c) => {
                    let nc = f(c);
                    self.objects[i] = SceneObject {
                        kind: o.kind,
                        transform: o.transform,
                        material: Some(nc),
                    };
                },
                None => {},
            }
            i += 1;
        }
        proof {
            if old(self).wf() {
                assert forall|j: int| 0 <= j < self.objects@.len() implies self.objects@[j]
                    .transform.wf() by {
                    assert(material_mapped(old(self).objects@[j], self.objects@[j], *f));
                }
            }
        }
    }
}

/// The fixed startup scene: one pickable cube carrying the shared material
/// in the default white, tilted an eighth of a turn back about the x axis
/// at `(0, 2, 5)`; one point light at `(8, 16, 8)`; one camera at
/// `(0, 6, 12)`. The camera's look-at orientation is the renderer's
/// business and is modelled as the identity rotation. The placement is a
/// fixed constant: the contract pins every entry, so two calls produce
/// identical scenes.
pub fn initial_scene() -> (s: Store)
    ensures
        s.wf(),
        s.objects@.len() == 3,
        s.objects@[0].kind is Shape,
        s.objects@[0].material == Some(Rgb { r: UNIT, g: UNIT, b: UNIT }),
        s.objects@[0].transform == (Transform {
            pos: Vec3 { x: 0, y: 2000, z: 5000 },
            rot: Quat { w: 924, x: -383i64, y: 0, z: 0 },
            scale: Vec3 { x: UNIT, y: UNIT, z: UNIT },
        }),
        s.objects@[1].kind is Light,
        s.objects@[1].material is None,
        s.objects@[1].transform == (Transform {
            pos: Vec3 { x: 8000, y: 16000, z: 8000 },
            rot: Quat { w: UNIT, x: 0, y: 0, z: 0 },
            scale: Vec3 { x: UNIT, y: UNIT, z: UNIT },
        }),
        s.objects@[2].kind is Camera,
        s.objects@[2].material is None,
        s.objects@[2].transform == (Transform {
            pos: Vec3 { x: 0, y: 6000, z: 12000 },
            rot: Quat { w: UNIT, x: 0, y: 0, z: 0 },
            scale: Vec3 { x: UNIT, y: UNIT, z: UNIT },
        }),
{
    let mut s = Store::new();
    let unit_scale = Vec3 { x: UNIT, y: UNIT, z: UNIT };
    // cos and -sin of a sixteenth of a turn (22.5 degrees) in fixed point:
    // the half-angle components of the cube's eighth-of-a-turn lean back
    // about x.
    let cube_rot = Quat { w: 924, x: -383, y: 0, z: 0 };
    s.spawn(
        ObjectKind::Shape,
        Transform { pos: Vec3 { x: 0, y: 2000, z: 5000 }, rot: cube_rot, scale: unit_scale },
        Some(Rgb { r: UNIT, g: UNIT, b: UNIT }),
    );
    s.spawn(
        ObjectKind::Light,
        Transform {
            pos: Vec3 { x: 8000, y: 16000, z: 8000 },
            rot: Quat { w: UNIT, x: 0, y: 0, z: 0 },
            scale: unit_scale,
        },
        None,
    );
    s.spawn(
        ObjectKind::Camera,
        Transform {
            pos: Vec3 { x: 0, y: 6000, z: 12000 },
            rot: Quat { w: UNIT, x: 0, y: 0, z: 0 },
            scale: unit_scale,
        },
        None,
    );
    s
}

} // verus!
