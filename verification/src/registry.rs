//! The publish registry: the shared collection of locally owned shapes
//! being broadcast. Three access patterns share it under the caller's
//! one lock: append on a user action, a read-only scheduler pass that
//! yields one wire sample per entry, and the render loop's exclusive
//! advance pass. Each contract pins the whole effect on the entry
//! sequence, so a pass can never observe a partially written entry.

use vstd::prelude::*;
use crate::motion::{
    DT_LIMIT_MS, MovingShapeObject, Vec2, clamp_i32, moved_shape, valid_rect,
};
use crate::shapes::color_name_spec;
use crate::shapes::ShapeType;

verus! {

/// One locally published shape, paired with the identifier of the
/// transport output channel that broadcasts it.
#[derive(Clone, Copy, Debug, PartialEq, Eq, Structural)]
pub struct ShapeWriter {
    pub handle: u64,
    pub shape: MovingShapeObject,
}

/// The registry itself: entries live for the process lifetime, so the
/// only mutations are appending a new entry and advancing shapes in
/// place.
pub struct PublishRegistry {
    pub entries: Vec<ShapeWriter>,
}

impl View for PublishRegistry {
    type V = Seq<ShapeWriter>;

    open spec fn view(&self) -> Seq<ShapeWriter> {
        self.entries@
    }
}

impl PublishRegistry {
    /// Every entry's shape is inside the integrator's bounds.
    pub open spec fn well_formed(&self) -> bool {
        forall|i: int| 0 <= i < self@.len() ==> self@[i].shape.well_formed()
    }

    pub fn new() -> (r: PublishRegistry)
        ensures
            r@ == Seq::<ShapeWriter>::empty(),
            r.well_formed(),
    {
        PublishRegistry { entries: Vec::new() }
    }

    pub fn len(&self) -> (n: usize)
        ensures
            n == self@.len(),
    {
        self.entries.len()
    }

    /// Appends a new entry; every existing entry is left exactly as it
    /// was.
    pub fn append(&mut self, entry: ShapeWriter)
        requires
            entry.shape.well_formed(),
            old(self).well_formed(),
        ensures
            final(self)@ == old(self)@.push(entry),
            final(self).well_formed(),
    {
        self.entries.push(entry);
    }

    /// The scheduler's read-only pass: one wire sample per entry, in
    /// registry order, each paired with the entry's channel handle.
    pub fn publish_pass(&self) -> (r: Vec<(u64, ShapeType)>)
        ensures
            r@.len() == self@.len(),
            forall|i: int|
                0 <= i < self@.len() ==> {
                    &&& (#[trigger] r@[i]).0 == self@[i].handle
                    &&& r@[i].1.color@ == color_name_spec(self@[i].shape.color)
                    &&& r@[i].1.x as int == clamp_i32(self@[i].shape.position.x as int)
                    &&& r@[i].1.y as int == clamp_i32(self@[i].shape.position.y as int)
                    &&& r@[i].1.shapesize as int == clamp_i32(self@[i].shape.size as int)
                },
    {
        let mut out: Vec<(u64, ShapeType)> = Vec::new();
        let mut i: usize = 0;
        while i < self.entries.len()
            invariant
                i <= self@.len(),
                out@.len() == i,
                forall|j: int|
                    0 <= j < i ==> {
                        &&& (#[trigger] out@[j]).0 == self@[j].handle
                        &&& out@[j].1.color@ == color_name_spec(self@[j].shape.color)
                        &&& out@[j].1.x as int == clamp_i32(self@[j].shape.position.x as int)
                        &&& out@[j].1.y as int == clamp_i32(self@[j].shape.position.y as int)
                        &&& out@[j].1.shapesize as int == clamp_i32(self@[j].shape.size as int)
                    },
            decreases self@.len() - i,
        {
            let w = &self.entries[i];
            out.push((w.handle, w.shape.to_shape_type()));
            i += 1;
        }
        out
    }

    /// The render loop's exclusive pass: one integrator step for every
    /// entry's shape; handles and order are kept.
    pub fn advance_all(&mut self, rect_size: Vec2, dt_ms: u64)
        requires
            old(self).well_formed(),
            valid_rect(rect_size),
            dt_ms <= DT_LIMIT_MS,
        ensures
            final(self)@.len() == old(self)@.len(),
            forall|i: int|
                0 <= i < old(self)@.len() ==> {
                    &&& (#[trigger] final(self)@[i]).handle == old(self)@[i].handle
                    &&& final(self)@[i].shape == moved_shape(
                        old(self)@[i].shape,
                        rect_size,
                        dt_ms as int,
                    )
                },
            final(self).well_formed(),
    {
        let n = self.entries.len();
        let mut i: usize = 0;
        while i < n
            invariant
                i <= n,
                n == self@.len(),
                self@.len() == old(self)@.len(),
                valid_rect(rect_size),
                dt_ms <= DT_LIMIT_MS,
                forall|j: int| i <= j < self@.len() ==> self@[j] == old(self)@[j],
                forall|j: int| i <= j < self@.len() ==> (#[trigger] self@[j]).shape.well_formed(),
                forall|j: int|
                    0 <= j < i ==> {
                        &&& (#[trigger] self@[j]).handle == old(self)@[j].handle
                        &&& self@[j].shape == moved_shape(
                            old(self)@[j].shape,
                            rect_size,
                            dt_ms as int,
                        )
                        &&& self@[j].shape.well_formed()
                    },
            decreases n - i,
        {
            let mut e = self.entries[i];
            e.shape.move_within_rect(rect_size, dt_ms);
            self.entries[i] = e;
            i += 1;
        }
    }

    /// Runtime check of `well_formed`, for callers outside the verified
    /// world that must test it before relying on a contract.
    pub fn is_well_formed(&self) -> (b: bool)
        ensures
            b == self.well_formed(),
    {
        let mut i: usize = 0;
        while i < self.entries.len()
            invariant
                i <= self@.len(),
                forall|j: int| 0 <= j < i ==> self@[j].shape.well_formed(),
            decreases self@.len() - i,
        {
            if !self.entries[i].shape.is_well_formed() {
                return false;
            }
            i += 1;
        }
        true
    }

    /// The post-advance shapes, in registry order, for the render list.
    pub fn shapes(&self) -> (r: Vec<MovingShapeObject>)
        ensures
            r@ == self@.map_values(|w: ShapeWriter| w.shape),
    {
        let mut out: Vec<MovingShapeObject> = Vec::new();
        let mut i: usize = 0;
        while i < self.entries.len()
            invariant
                i <= self@.len(),
                out@.len() == i,
                forall|j: int| 0 <= j < i ==> out@[j] == self@[j].shape,
            decreases self@.len() - i,
        {
            out.push(self.entries[i].shape);
            i += 1;
        }
        proof {
            assert(out@ =~= self@.map_values(|w: ShapeWriter| w.shape));
        }
        out
    }
}

/// Registry isolation at the model level: an append puts the new entry
/// whole at the end and leaves every prior index exactly as it was, so
/// an interleaved pass never sees a torn entry. Mutual exclusion between
/// the two execution contexts is the caller's lock around the whole
/// registry.
pub proof fn lemma_append_isolation(entries: Seq<ShapeWriter>, entry: ShapeWriter)
    ensures
        entries.push(entry).len() == entries.len() + 1,
        forall|i: int| 0 <= i < entries.len() ==> entries.push(entry)[i] == entries[i],
        entries.push(entry)[entries.len() as int] == entry,
{
}

} // verus!
