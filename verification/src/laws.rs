//! What holds of the table across several operations.
use crate::lemmas::{lemma_detach, lemma_live_agree, lemma_refs_lower, lemma_touch};
use crate::model::{fresh_record, slot_refs, teardown_of, TableModel};
use crate::resource::{Links, Parents, Record, ResourceId, ResourceKind, Teardown};
use vstd::prelude::*;

verus! {

/// Opening a context and letting go of it at once leaves no resource behind:
/// the one teardown call that is owed is that of the new context, every slot
/// holds what it held before, and the table holds as many resources as
/// before.
pub proof fn lemma_open_then_release(m: TableModel, i: int, raw: usize, user_data: usize)
    requires
        m.wf(),
        raw != 0,
        m.next_slot(i),
    ensures
        ({
            let opened = m.place(i, ResourceKind::Context, raw, user_data, Links::spec_none());
            let id = opened.id_at(i);
            let closed = opened.release(id);
            &&& opened.held(id)
            &&& opened.live_count() == m.live_count() + 1
            &&& closed.1 == seq![
                Teardown { kind: ResourceKind::Context, raw, acks: 0 },
            ]
            &&& closed.0.live_count() == m.live_count()
            &&& forall|j: int|
                0 <= j < m.slots.len() ==> (#[trigger] closed.0.slots[j]).entry == m.slots[j].entry
            &&& !closed.0.resolves(id)
        }),
{
    let deps = Links::spec_none();
    let rec = fresh_record(ResourceKind::Context, raw, user_data, deps);
    let opened = m.place(i, ResourceKind::Context, raw, user_data, deps);
    let id = opened.id_at(i);
    let n = m.slots.len() as int;
    assert(opened.slots[i] == m.placed_slot(i, rec, i));
    let last = Record { handles: 0, ..rec };
    let m1 = opened.with_rec(i, last);
    assert(m1.unowned(i));
    let m0 = m1.detach(i);
    assert(m1.reap(i).0 == m0);
    assert(m1.reap(i).1 =~= seq![teardown_of(last)]);
    assert(opened.release(id) == m1.reap(i));
    assert forall|j: int| 0 <= j < n implies (#[trigger] m0.slots[j]).entry == m.slots[j].entry by {
        assert(m0.slots[j] == m1.detached_slot(i, j));
        assert(opened.slots[j] == m.placed_slot(i, rec, j));
        if j != i {
            assert(m1.slots[j] == opened.slots[j]);
            if m.slots[j].entry is Some {
                assert(m0.slots[j].entry->0.registry == m.slots[j].entry->0.registry);
                assert(m0.slots[j].entry->0.rec == m.slots[j].entry->0.rec);
            }
        } else {
            assert(!m.live(i));
        }
    }
    assert(m0.slots[i] == m1.detached_slot(i, i));
    lemma_live_agree(m0, m, n);
    assert forall|j: int| 0 <= j < n && j != i implies (#[trigger] opened.slots[j]).entry is Some
        == m.slots[j].entry is Some by {
        assert(opened.slots[j] == m.placed_slot(i, rec, j));
    }
    if i == n {
        lemma_live_agree(opened, m, n);
    } else {
        lemma_live_differ(m, opened, n, i);
    }
}

/// Two tables that are filled alike everywhere but in slot `i`, which is
/// empty in the one and filled in the other, differ by one in how many
/// resources they hold.
pub proof fn lemma_live_differ(a: TableModel, b: TableModel, n: int, i: int)
    requires
        0 <= i < n <= a.slots.len(),
        n <= b.slots.len(),
        a.slots[i].entry is None,
        b.slots[i].entry is Some,
        forall|j: int|
            0 <= j < n && j != i ==> (#[trigger] b.slots[j]).entry is Some == a.slots[j].entry is Some,
    ensures
        b.live_upto(n) == a.live_upto(n) + 1,
    decreases n,
{
    if n - 1 == i {
        assert forall|j: int| 0 <= j < n - 1 implies (#[trigger] b.slots[j]).entry is Some
            == a.slots[j].entry is Some by {}
        lemma_live_agree(b, a, n - 1);
    } else {
        lemma_live_differ(a, b, n - 1, i);
        assert(b.slots[n - 1].entry is Some == a.slots[n - 1].entry is Some);
    }
}

/// Destroying a completion queue that is bound to a channel takes exactly one
/// name out of the channel's registry, the queue's own, which was in it. The
/// name then resolves no more, so the queue cannot be destroyed, nor its name
/// taken out, a second time.
pub proof fn lemma_destroy_unregisters(m: TableModel, queue: ResourceId, c: int)
    requires
        m.wf_loose(),
        m.bound(queue, c),
        m.unowned(queue.index as int),
    ensures
        m.live(c),
        m.rec(c).kind == ResourceKind::CompChannel,
        m.registry(c).contains(queue),
        m.detach(queue.index as int).live(c),
        m.detach(queue.index as int).registry(c) == m.registry(c).remove(queue),
        m.detach(queue.index as int).registry(c).len() == m.registry(c).len() - 1,
        !m.detach(queue.index as int).resolves(queue),
        m.detach(queue.index as int).retired(queue),
        !m.detach(queue.index as int).unowned(queue.index as int),
{
    let q = queue.index as int;
    let r = m.detach(q);
    assert(m.slot_ok(q));
    assert(m.live(c));
    assert(m.slot_ok(c));
    assert(r.slots[c] == m.detached_slot(q, c));
    assert(r.slots[q] == m.detached_slot(q, q));
    assert(queue == m.id_at(q));
}

/// A channel that is left without owner and dependent has an empty registry:
/// a channel is destroyed only after every queue that was bound to it.
pub proof fn lemma_teardown_registry_empty(m: TableModel, c: int)
    requires
        m.wf_loose(),
        m.unowned(c),
    ensures
        m.registry(c) =~= Set::<ResourceId>::empty(),
{
    assert(m.slot_ok(c));
    assert forall|id: ResourceId| !m.registry(c).contains(id) by {
        if m.registry(c).contains(id) {
            assert(m.bound(id, c));
            let q = id.index as int;
            lemma_refs_lower(m, m.slots.len() as int, q, c);
            assert(slot_refs(m.slots[q], c) >= 1);
        }
    }
}

/// A resource that something depends on is never left alone: in a well-formed
/// table every dependency of a live resource is live and counts at least one
/// dependent, so it cannot be destroyed before what depends on it.
pub proof fn lemma_dependency_outlives(m: TableModel, child: int, parent: int)
    requires
        m.wf_loose(),
        m.live(child),
        m.rec(child).deps.count(parent) > 0,
    ensures
        m.live(parent),
        m.rec(parent).children >= 1,
        !m.unowned(parent),
        m.rec(parent).kind.rank() < m.rec(child).kind.rank(),
{
    assert(m.slot_ok(child));
    let deps = m.rec(child).deps;
    let kind = m.rec(child).kind;
    assert(m.live(parent));
    assert(m.slot_ok(parent));
    lemma_refs_lower(m, m.slots.len() as int, child, parent);
    if deps.d0 is Some && deps.d0->0 as int == parent {
        crate::resource::lemma_link_descends(kind, 0, m.rec(parent).kind);
    } else if deps.d1 is Some && deps.d1->0 as int == parent {
        crate::resource::lemma_link_descends(kind, 1, m.rec(parent).kind);
    } else if deps.d2 is Some && deps.d2->0 as int == parent {
        crate::resource::lemma_link_descends(kind, 2, m.rec(parent).kind);
    } else {
        crate::resource::lemma_link_descends(kind, 3, m.rec(parent).kind);
    }
}

/// Letting go of the last hold on a completion queue that nothing depends
/// on, while its channel and its context are still held, destroys the queue
/// alone: the one teardown call owed is the queue's, the channel's registry
/// loses exactly the queue's name, and a second release of the same name
/// fails.
pub proof fn lemma_release_unregisters(m: TableModel, queue: ResourceId, c: int)
    requires
        m.wf(),
        m.bound(queue, c),
        m.rec(queue.index as int).handles == 1,
        m.rec(queue.index as int).children == 0,
        m.rec(c).handles >= 1,
        m.rec(m.rec(queue.index as int).deps.d1->0 as int).handles >= 1,
    ensures
        m.held(queue),
        m.release(queue).1 == seq![teardown_of(m.rec(queue.index as int))],
        m.release(queue).0.live(c),
        m.registry(c).contains(queue),
        m.release(queue).0.registry(c) == m.registry(c).remove(queue),
        m.release(queue).0.registry(c).len() == m.registry(c).len() - 1,
        !m.release(queue).0.held(queue),
{
    let q = queue.index as int;
    let rec = m.rec(q);
    let last = Record { handles: 0, ..rec };
    let m1 = m.with_rec(q, last);
    lemma_touch(m, q, last);
    assert(m.slot_ok(q));
    assert(m.slot_ok(c));
    assert(m1.unowned(q));
    assert(m1.bound(queue, c));
    lemma_destroy_unregisters(m1, queue, c);
    lemma_detach(m1, q);
    let m0 = m1.detach(q);
    let x = rec.deps.d1->0 as int;
    assert(m0.slots[c] == m1.detached_slot(q, c));
    assert(m0.slots[x] == m1.detached_slot(q, x));
    assert(!m0.unowned(c));
    assert(!m0.unowned(x));
    let limit = m1.rank_at(q);
    assert(m0.reap_link(rec.deps.d0, limit) == (m0, Seq::<Teardown>::empty()));
    assert(m0.reap_link(rec.deps.d1, limit) == (m0, Seq::<Teardown>::empty()));
    assert(m0.reap_link(rec.deps.d2, limit) == (m0, Seq::<Teardown>::empty()));
    assert(m0.reap_link(rec.deps.d3, limit) == (m0, Seq::<Teardown>::empty()));
    assert(m1.reap(q).0 == m0);
    assert(m1.reap(q).1 =~= seq![teardown_of(last)]);
    assert(m.release(queue) == m1.reap(q));
    assert(m1.registry(c) == m.registry(c));
}

/// A name that a creation gives out was never given out before: the slot is
/// in a generation that no retired name of that slot has, and the name is not
/// among the names that resolved before.
pub proof fn lemma_names_are_fresh(
    m: TableModel,
    i: int,
    kind: ResourceKind,
    raw: usize,
    user_data: usize,
    parents: Parents,
    old_id: ResourceId,
)
    requires
        m.wf(),
        m.next_slot(i),
        m.resolves(old_id) || m.retired(old_id),
    ensures
        m.place(i, kind, raw, user_data, parents.links()).id_at(i) != old_id,
        m.retired(old_id) ==> m.place(i, kind, raw, user_data, parents.links()).retired(old_id)
            && !m.place(i, kind, raw, user_data, parents.links()).resolves(old_id),
{
    let r = m.place(i, kind, raw, user_data, parents.links());
    let rec = fresh_record(kind, raw, user_data, parents.links());
    assert(r.slots[i] == m.placed_slot(i, rec, i));
    if old_id.index < m.slots.len() {
        assert(r.slots[old_id.index as int] == m.placed_slot(i, rec, old_id.index as int));
    }
}

/// A retired name stays retired, and resolves no more, in every table that
/// the table it was retired in ages to.
pub proof fn lemma_retired_stays(m: TableModel, later: TableModel, id: ResourceId)
    requires
        m.ages_to(later),
        m.retired(id),
    ensures
        later.retired(id),
        !later.resolves(id),
{
    assert(later.slots[id.index as int].generation >= m.slots[id.index as int].generation);
}

/// Aging goes on: what a table ages to, ages to what that ages to.
pub proof fn lemma_ages_on(a: TableModel, b: TableModel, c: TableModel)
    requires
        a.ages_to(b),
        b.ages_to(c),
    ensures
        a.ages_to(c),
{
    assert forall|j: int| 0 <= j < a.slots.len() implies a.slots[j].generation <= (
    #[trigger] c.slots[j]).generation by {
        assert(b.slots[j].generation <= c.slots[j].generation);
    }
}

/// A table ages to what a creation makes of it.
pub proof fn lemma_place_ages(
    m: TableModel,
    i: int,
    kind: ResourceKind,
    raw: usize,
    user_data: usize,
    deps: Links,
)
    requires
        0 <= i <= m.slots.len(),
    ensures
        m.ages_to(m.place(i, kind, raw, user_data, deps)),
{
    let r = m.place(i, kind, raw, user_data, deps);
    assert forall|j: int| 0 <= j < m.slots.len() implies m.slots[j].generation <= (
    #[trigger] r.slots[j]).generation by {
        assert(r.slots[j] == m.placed_slot(i, fresh_record(kind, raw, user_data, deps), j));
    }
}

/// A table ages to what the destruction of one resource makes of it, and the
/// name of that resource is retired by it.
pub proof fn lemma_detach_ages(m: TableModel, p: int)
    requires
        m.wf_loose(),
        m.live(p),
    ensures
        m.ages_to(m.detach(p)),
        m.detach(p).retired(m.id_at(p)),
{
    let r = m.detach(p);
    assert(m.slot_ok(p));
    assert forall|j: int| 0 <= j < m.slots.len() implies m.slots[j].generation <= (
    #[trigger] r.slots[j]).generation by {
        assert(r.slots[j] == m.detached_slot(p, j));
    }
    assert(r.slots[p] == m.detached_slot(p, p));
}

/// A table ages to what destroying from slot `p` on makes of it.
pub proof fn lemma_reap_ages(m: TableModel, p: int)
    requires
        m.wf_loose(),
    ensures
        m.ages_to(m.reap(p).0),
        m.unowned(p) ==> m.reap(p).0.retired(m.id_at(p)),
    decreases m.rank_at(p), 1nat,
{
    if m.unowned(p) {
        let rec = m.rec(p);
        let limit = m.rank_at(p);
        let m0 = m.detach(p);
        lemma_detach(m, p);
        lemma_detach_ages(m, p);
        lemma_reap_link_ages(m0, rec.deps.d0, limit);
        let r0 = m0.reap_link(rec.deps.d0, limit).0;
        crate::lemmas::lemma_reap_guarded(m0, rec.deps.d0, limit);
        lemma_reap_link_ages(r0, rec.deps.d1, limit);
        let r1 = r0.reap_link(rec.deps.d1, limit).0;
        crate::lemmas::lemma_reap_guarded(r0, rec.deps.d1, limit);
        lemma_reap_link_ages(r1, rec.deps.d2, limit);
        let r2 = r1.reap_link(rec.deps.d2, limit).0;
        crate::lemmas::lemma_reap_guarded(r1, rec.deps.d2, limit);
        lemma_reap_link_ages(r2, rec.deps.d3, limit);
        let r3 = r2.reap_link(rec.deps.d3, limit).0;
        lemma_ages_on(m, m0, r0);
        lemma_ages_on(m, r0, r1);
        lemma_ages_on(m, r1, r2);
        lemma_ages_on(m, r2, r3);
        lemma_ages_on(m0, r0, r1);
        lemma_ages_on(m0, r1, r2);
        lemma_ages_on(m0, r2, r3);
        lemma_retired_stays(m0, r3, m.id_at(p));
    } else {
        assert(m.ages_to(m));
    }
}

/// [`lemma_reap_ages`] for a dependency.
pub proof fn lemma_reap_link_ages(m: TableModel, d: Option<u32>, limit: nat)
    requires
        m.wf_loose(),
    ensures
        m.ages_to(m.reap_link(d, limit).0),
    decreases limit, 0nat,
{
    if d is Some && m.rank_at(d->0 as int) < limit {
        lemma_reap_ages(m, d->0 as int);
    } else {
        assert(m.ages_to(m));
    }
}

/// A table ages to what a release makes of it; and where the release
/// destroys the resource, its name is retired for good.
pub proof fn lemma_release_ages(m: TableModel, id: ResourceId)
    requires
        m.wf(),
        m.held(id),
    ensures
        m.ages_to(m.release(id).0),
        m.rec(id.index as int).handles == 1 && m.rec(id.index as int).children == 0
            ==> m.release(id).0.retired(id) && !m.release(id).0.resolves(id),
{
    let i = id.index as int;
    let rec = Record { handles: (m.rec(i).handles - 1) as u64, ..m.rec(i) };
    let m1 = m.with_rec(i, rec);
    lemma_touch(m, i, rec);
    lemma_reap_ages(m1, i);
    assert(m.ages_to(m1));
    lemma_ages_on(m, m1, m1.reap(i).0);
    assert(m1.id_at(i) == id);
}

} // verus!
