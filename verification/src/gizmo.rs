//! The gizmo transform controller: while an object is selected, the
//! frame's drag delta is combined into that object's transform and written
//! back to the store. Idle frames hand in the zero delta, which provably
//! writes the transform back unchanged. The per-frame spin applied to
//! every shape lives here too.

use vstd::prelude::*;
use crate::selection::SelectionState;
use crate::store::{Store, SceneObject, ObjectKind};
use crate::transform::{DragDelta, Quat, Transform, spec_combine, combine, quat_mul, spec_quat_mul,
    lemma_combine_zero};

verus! {

/// The store contents after one gizmo drag: when an object is selected and
/// its handle is still valid, only that object's transform changes, to the
/// combination of its old transform with the delta; otherwise nothing
/// changes.
pub open spec fn spec_apply_drag(
    objs: Seq<SceneObject>,
    sel: SelectionState,
    d: DragDelta,
) -> Seq<SceneObject> {
    match sel.selected {
        Some(id) => if id.idx < objs.len() {
            objs.update(
                id.idx as int,
                SceneObject {
                    kind: objs[id.idx as int].kind,
                    transform: spec_combine(objs[id.idx as int].transform, d),
                    material: objs[id.idx as int].material,
                },
            )
        } else {
            objs
        },
        None => objs,
    }
}

/// Applies the frame's drag delta to the selected object's transform. The
/// controller is active only while something is selected; a handle the
/// store no longer answers to (impossible under this store, but guarded
/// defensively) drops the drag silently.
pub fn apply_drag(sel: &SelectionState, store: &mut Store, d: &DragDelta)
    requires
        old(store).wf(),
        d.wf(),
    ensures
        final(store).objects@ == spec_apply_drag(old(store).objects@, *sel, *d),
        final(store).wf(),
{
    match sel.selected {
        Some(id) => {
            if id.idx < store.len() {
                let t = store.get_transform(id);
                let nt = combine(&t, d);
                store.set_transform(id, nt);
            }
        },
        None => {},
    }
}

/// Law: a zero-delta drag is a no-op write. Whatever is selected, applying
/// the idle-frame delta leaves every object of a well-formed store
/// bit-for-bit unchanged.
pub proof fn lemma_drag_zero_noop(objs: Seq<SceneObject>, sel: SelectionState)
    requires
        forall|i: int| 0 <= i < objs.len() ==> objs[i].transform.wf(),
    ensures
        spec_apply_drag(objs, sel, DragDelta::spec_zero()) == objs,
{
    match sel.selected {
        Some(id) => {
            if id.idx < objs.len() {
                lemma_combine_zero(objs[id.idx as int].transform);
                assert(spec_apply_drag(objs, sel, DragDelta::spec_zero()) =~= objs);
            }
        },
        None => {},
    }
}

/// One object after the frame's spin: a shape's rotation is composed with
/// `rot`; everything else about it, and every non-shape object, is
/// untouched.
pub open spec fn spun(o: SceneObject, n: SceneObject, rot: Quat) -> bool {
    &&& n.kind == o.kind
    &&& n.material == o.material
    &&& n.transform.pos == o.transform.pos
    &&& n.transform.scale == o.transform.scale
    &&& n.transform.rot == if o.kind is Shape {
        spec_quat_mul(rot, o.transform.rot)
    } else {
        o.transform.rot
    }
}

/// Composes `rot` into the rotation of every shape in the store, as the
/// per-frame spin does; lights and the camera keep their transforms.
pub fn spin_shapes(store: &mut Store, rot: &Quat)
    requires
        old(store).wf(),
        rot.wf(),
    ensures
        final(store).objects@.len() == old(store).objects@.len(),
        forall|i: int|
            0 <= i < old(store).objects@.len() ==> spun(
                old(store).objects@[i],
                final(store).objects@[i],
                *rot,
            ),
        final(store).wf(),
{
    let n = store.objects.len();
    let mut i: usize = 0;
    while i < n
        invariant
            n == store.objects@.len(),
            store.objects@.len() == old(store).objects@.len(),
            i <= n,
            rot.wf(),
            forall|j: int| i <= j < n ==> store.objects@[j] == old(store).objects@[j],
            forall|j: int| 0 <= j < i ==> spun(old(store).objects@[j], store.objects@[j], *rot),
            old(store).wf(),
        decreases n - i,
    {
        let o = store.objects[i];
        match o.kind {
            ObjectKind::Shape => {
                let nr = quat_mul(rot, &o.transform.rot);
                store.objects[i] = SceneObject {
                    kind: o.kind,
                    transform: Transform {
                        pos: o.transform.pos,
                        rot: nr,
                        scale: o.transform.scale,
                    },
                    material: o.material,
                };
            },
            _ => {},
        }
        i += 1;
    }
}

} // verus!
