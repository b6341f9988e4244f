//! Ordered collections of entities: well-formedness, bounding boxes and
//! the removal of the dead.
use vstd::prelude::*;
use crate::entity::Entity;
use crate::geometry::Rect;

verus! {

/// The live entities of `s`, in the order in which they stand in `s`.
pub open spec fn live(s: Seq<Entity>) -> Seq<Entity> {
    s.filter(|e: Entity| e.alive)
}

/// Every entity of `s` has positive extent.
pub open spec fn all_wf(s: Seq<Entity>) -> bool {
    forall|i: int| 0 <= i < s.len() ==> (#[trigger] s[i]).wf()
}

/// Every entity of `s` is alive.
pub open spec fn all_alive(s: Seq<Entity>) -> bool {
    forall|i: int| 0 <= i < s.len() ==> (#[trigger] s[i]).alive
}

/// The bounding boxes of the entities of `s`, in order.
pub open spec fn bounds_of(s: Seq<Entity>) -> Seq<Rect> {
    s.map_values(|e: Entity| e.bounds())
}

/// Taking one more entity from the front of a sequence either appends it
/// to the live ones taken so far or leaves them as they are.
pub proof fn lemma_live_take_next(s: Seq<Entity>, i: int)
    requires
        0 <= i < s.len(),
    ensures
        live(s.take(i + 1)) == if s[i].alive {
            live(s.take(i)).push(s[i])
        } else {
            live(s.take(i))
        },
{
    assert(s.take(i + 1) =~= s.take(i).push(s[i]));
    s.take(i).lemma_filter_push(s[i], |e: Entity| e.alive);
}

/// What `live` keeps is alive, stood in the sequence it was taken from,
/// and is no more than that sequence held.
pub proof fn lemma_live_members(s: Seq<Entity>)
    ensures
        all_alive(live(s)),
        live(s).len() <= s.len(),
        forall|i: int| 0 <= i < live(s).len() ==> s.contains(#[trigger] live(s)[i]),
        all_wf(s) ==> all_wf(live(s)),
{
    let pred = |e: Entity| e.alive;
    s.lemma_filter_len(pred);
    assert forall|i: int| 0 <= i < live(s).len() implies (#[trigger] live(s)[i]).alive
        && s.contains(live(s)[i]) by {
        s.lemma_filter_pred(pred, i);
        assert(s.filter(pred).contains(live(s)[i]));
        s.lemma_filter_contains_rev(pred, live(s)[i]);
    }
    if all_wf(s) {
        assert forall|i: int| 0 <= i < live(s).len() implies (#[trigger] live(s)[i]).wf() by {
            let e = live(s)[i];
            assert(s.contains(e));
            let j = choose|j: int| 0 <= j < s.len() && s[j] == e;
            assert(s[j].wf());
        }
    }
}

/// A sequence without dead entities is its own live part.
pub proof fn lemma_live_of_all_alive(s: Seq<Entity>)
    requires
        all_alive(s),
    ensures
        live(s) == s,
    decreases s.len(),
{
    let pred = |e: Entity| e.alive;
    if s.len() == 0 {
        reveal_with_fuel(Seq::filter, 1);
        assert(s.filter(pred) =~= s);
    } else {
        lemma_live_of_all_alive(s.drop_last());
        assert(s.drop_last().push(s.last()) =~= s);
        s.drop_last().lemma_filter_push(s.last(), pred);
    }
}

/// Marking one live entity dead makes the live part one shorter.
pub proof fn lemma_live_after_kill(s: Seq<Entity>, j: int)
    requires
        0 <= j < s.len(),
        s[j].alive,
    ensures
        live(s.update(j, s[j].killed())).len() + 1 == live(s).len(),
    decreases s.len(),
{
    let pred = |e: Entity| e.alive;
    let t = s.update(j, s[j].killed());
    assert(s.drop_last().push(s.last()) =~= s);
    s.drop_last().lemma_filter_push(s.last(), pred);
    if j == s.len() - 1 {
        assert(s.drop_last().push(t.last()) =~= t);
        s.drop_last().lemma_filter_push(t.last(), pred);
    } else {
        lemma_live_after_kill(s.drop_last(), j);
        assert(s.drop_last().update(j, s[j].killed()).push(s.last()) =~= t);
        s.drop_last().update(j, s[j].killed()).lemma_filter_push(s.last(), pred);
    }
}

/// Removes the dead entities from `v`. The survivors keep their order.
pub fn retain_alive(v: &mut Vec<Entity>)
    ensures
        final(v)@ == live(old(v)@),
{
    let mut kept: Vec<Entity> = Vec::new();
    let mut i: usize = 0;
    proof {
        lemma_live_of_all_alive(v@.take(0));
    }
    while i < v.len()
        invariant
            i <= v.len(),
            kept@ == live(v@.take(i as int)),
        decreases v.len() - i,
    {
        let e = v[i];
        proof {
            lemma_live_take_next(v@, i as int);
        }
        if e.alive {
            kept.push(e);
        }
        i += 1;
    }
    assert(v@.take(i as int) =~= v@);
    *v = kept;
}

/// The bounding boxes of the entities of `v`, in order.
pub fn collect_bounds(v: &Vec<Entity>) -> (r: Vec<Rect>)
    ensures
        r@ == bounds_of(v@),
{
    let mut boxes: Vec<Rect> = Vec::new();
    let mut i: usize = 0;
    while i < v.len()
        invariant
            i <= v.len(),
            boxes@.len() == i,
            forall|k: int| 0 <= k < i ==> boxes@[k] == (#[trigger] v@[k]).bounds(),
        decreases v.len() - i,
    {
        boxes.push(v[i].bounds());
        i += 1;
    }
    assert(boxes@ =~= bounds_of(v@));
    boxes
}

/// Run-time test of [`all_wf`].
pub fn all_valid(v: &Vec<Entity>) -> (r: bool)
    ensures
        r == all_wf(v@),
{
    let mut i: usize = 0;
    while i < v.len()
        invariant
            i <= v.len(),
            forall|k: int| 0 <= k < i ==> (#[trigger] v@[k]).wf(),
        decreases v.len() - i,
    {
        if !v[i].is_valid() {
            return false;
        }
        i += 1;
    }
    true
}

} // verus!
