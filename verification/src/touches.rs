use crate::input::{TouchEnd, TouchMove, TouchStart};
use std::collections::HashMap;
use vstd::prelude::*;

verus! {

broadcast use vstd::std_specs::hash::group_hash_axioms;

/// The records of touches other than `id` agree in `a` and `b`.
pub open spec fn others_unchanged<P>(a: Map<u64, P>, b: Map<u64, P>, id: u64) -> bool {
    forall|k: u64|
        k != id ==> (#[trigger] a.contains_key(k) == b.contains_key(k) && (a.contains_key(k)
            ==> a[k] == b[k]))
}

/// Touches that start panning, selecting, erasing or inserting a shape get a
/// pointer record; brush strokes are kept apart from the pointer records.
pub open spec fn starts_pointer(start: TouchStart) -> bool {
    ||| start is Pan
    ||| start is Select
    ||| start is Erase
    ||| start is InsertShape
}

/// A new touch `id`: records `pointer` for it where `start` keeps a record.
pub fn touch_began<P>(pointers: &mut HashMap<u64, P>, id: u64, start: TouchStart, pointer: P)
    ensures
        final(pointers)@ == if starts_pointer(start) {
            old(pointers)@.insert(id, pointer)
        } else {
            old(pointers)@
        },
        (start is Pan || start is Select || start is Erase || start is InsertShape) ==> final(pointers)@ == old(pointers)@.insert(id, pointer),
        (start is BrushStroke || start is Ignore) ==> final(pointers)@ == old(pointers)@,
        others_unchanged(final(pointers)@, old(pointers)@, id),
{
    match start {
        TouchStart::Pan | TouchStart::Select | TouchStart::Erase | TouchStart::InsertShape => {
            pointers.insert(id, pointer);
        },
        TouchStart::BrushStroke | TouchStart::Ignore => {},
    }
}

/// Movements that update the touch's pointer record.
pub open spec fn updates_pointer(step: TouchMove) -> bool {
    ||| step is Pan
    ||| step is DragSelection
    ||| step is Track
}

/// Touch `id` moved: where `step` updates pointer records and the touch has
/// one, its record becomes `moved`; a touch without a record is ignored.
pub fn touch_moved<P>(pointers: &mut HashMap<u64, P>, id: u64, step: TouchMove, moved: P)
    ensures
        final(pointers)@ == if updates_pointer(step) && old(pointers)@.contains_key(id) {
            old(pointers)@.insert(id, moved)
        } else {
            old(pointers)@
        },
        (step is Pan || step is DragSelection || step is Track) && old(pointers)@.contains_key(id)
            ==> final(pointers)@ == old(pointers)@.insert(id, moved),
        (step is ExtendStroke || step is Ignore || !old(pointers)@.contains_key(id)) ==> final(pointers)@ == old(pointers)@,
        others_unchanged(final(pointers)@, old(pointers)@, id),
{
    let updates = match step {
        TouchMove::Pan | TouchMove::DragSelection | TouchMove::Track => true,
        TouchMove::ExtendStroke | TouchMove::Ignore => false,
    };
    if updates && pointers.contains_key(&id) {
        pointers.insert(id, moved);
    }
}

/// Ends that drop the touch's pointer record.
pub open spec fn releases_pointer(end: TouchEnd) -> bool {
    ||| end is Release
    ||| end is FinishSelection
    ||| end is FinishShape
}

/// Touch `id` ended or was cancelled: where `end` drops pointer records, the
/// touch's record is removed and handed back (to record the finished drag or
/// insert the spanned shape); other ends leave the records alone.
pub fn touch_finished<P>(pointers: &mut HashMap<u64, P>, id: u64, end: TouchEnd) -> (removed:
    Option<P>)
    ensures
        final(pointers)@ == if releases_pointer(end) {
            old(pointers)@.remove(id)
        } else {
            old(pointers)@
        },
        removed == if releases_pointer(end) && old(pointers)@.contains_key(id) {
            Some(old(pointers)@[id])
        } else {
            None::<P>
        },
        (end is Release || end is FinishSelection || end is FinishShape) ==> {
            &&& !final(pointers)@.contains_key(id)
            &&& removed == (if old(pointers)@.contains_key(id) {
                Some(old(pointers)@[id])
            } else {
                None::<P>
            })
        },
        (end is EndStroke || end is Ignore) ==> final(pointers)@ == old(pointers)@ && removed is None,
        others_unchanged(final(pointers)@, old(pointers)@, id),
{
    match end {
        TouchEnd::Release | TouchEnd::FinishSelection | TouchEnd::FinishShape => pointers.remove(&id),
        TouchEnd::EndStroke | TouchEnd::Ignore => None,
    }
}

/// A touch that starts with a pointer record and then ends, releasing it,
/// leaves the pointer records exactly as they were before it began.
pub proof fn lemma_touch_begin_end_restores<P>(pointers: Map<u64, P>, id: u64, pointer: P)
    requires
        !pointers.contains_key(id),
    ensures
        pointers.insert(id, pointer).remove(id) == pointers,
{
    assert(pointers.insert(id, pointer).remove(id) =~= pointers);
}

/// Which touches keep a pointer record: every start but a brush stroke or an
/// ignored touch, so panning, selecting, erasing and shape-inserting touches
/// all do.
pub proof fn lemma_which_touches_are_recorded(start: TouchStart)
    ensures
        starts_pointer(start) <==> !(start is BrushStroke || start is Ignore),
        starts_pointer(TouchStart::InsertShape),
        starts_pointer(TouchStart::Pan),
        starts_pointer(TouchStart::Select),
        starts_pointer(TouchStart::Erase),
{
}

/// Which movements and ends touch the record: every movement but a stroke's
/// or an ignored one updates it; every end but a stroke's or an ignored one
/// drops it.
pub proof fn lemma_which_steps_touch_records(step: TouchMove, end: TouchEnd)
    ensures
        updates_pointer(step) <==> !(step is ExtendStroke || step is Ignore),
        releases_pointer(end) <==> !(end is EndStroke || end is Ignore),
{
}

} // verus!
