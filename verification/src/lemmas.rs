//! Proofs about the model: how the dependency counts move, and that every
//! operation keeps the table well formed.
use crate::model::{fresh_record, slot_refs, SlotModel, TableModel};
use crate::resource::{hit, lemma_link_descends, link_ok, Parents, Record, ResourceId, ResourceKind};
use vstd::prelude::*;

verus! {

/// Two tables whose first `n` slots agree on what holds `p` count the same
/// there.
pub proof fn lemma_refs_agree(a: TableModel, b: TableModel, n: int, p: int)
    requires
        0 <= n <= a.slots.len(),
        n <= b.slots.len(),
        forall|j: int| 0 <= j < n ==> slot_refs(#[trigger] a.slots[j], p) == slot_refs(b.slots[j], p),
    ensures
        a.refs_upto(n, p) == b.refs_upto(n, p),
    decreases n,
{
    if n > 0 {
        lemma_refs_agree(a, b, n - 1, p);
        assert(slot_refs(a.slots[n - 1], p) == slot_refs(b.slots[n - 1], p));
    }
}

/// Two tables that agree on what holds `p` everywhere but in slot `i` differ
/// in their counts by what slot `i` holds.
pub proof fn lemma_refs_change(a: TableModel, b: TableModel, n: int, i: int, p: int)
    requires
        0 <= i < n <= a.slots.len(),
        n <= b.slots.len(),
        forall|j: int|
            0 <= j < n && j != i ==> slot_refs(#[trigger] a.slots[j], p) == slot_refs(
                b.slots[j],
                p,
            ),
    ensures
        b.refs_upto(n, p) + slot_refs(a.slots[i], p) == a.refs_upto(n, p) + slot_refs(
            b.slots[i],
            p,
        ),
    decreases n,
{
    if n - 1 == i {
        lemma_refs_agree(a, b, n - 1, p);
    } else {
        lemma_refs_change(a, b, n - 1, i, p);
        assert(slot_refs(a.slots[n - 1], p) == slot_refs(b.slots[n - 1], p));
    }
}

/// The count of what holds `p` is at least what one slot holds.
pub proof fn lemma_refs_lower(a: TableModel, n: int, j: int, p: int)
    requires
        0 <= j < n <= a.slots.len(),
    ensures
        a.refs_upto(n, p) >= slot_refs(a.slots[j], p),
    decreases n,
{
    if n - 1 != j {
        lemma_refs_lower(a, n - 1, j, p);
    }
}

/// Where no slot holds `p`, the count is zero.
pub proof fn lemma_refs_zero(a: TableModel, n: int, p: int)
    requires
        0 <= n <= a.slots.len(),
        forall|j: int| 0 <= j < n ==> slot_refs(#[trigger] a.slots[j], p) == 0,
    ensures
        a.refs_upto(n, p) == 0,
    decreases n,
{
    if n > 0 {
        lemma_refs_zero(a, n - 1, p);
        assert(slot_refs(a.slots[n - 1], p) == 0);
    }
}

/// Each slot holds `p` in at most four positions.
pub proof fn lemma_refs_bound(a: TableModel, n: int, p: int)
    requires
        0 <= n <= a.slots.len(),
    ensures
        a.refs_upto(n, p) <= 4 * n,
    decreases n,
{
    if n > 0 {
        lemma_refs_bound(a, n - 1, p);
    }
}

/// Two tables whose first `n` slots are filled alike hold as many resources
/// there.
pub proof fn lemma_live_agree(a: TableModel, b: TableModel, n: int)
    requires
        0 <= n <= a.slots.len(),
        n <= b.slots.len(),
        forall|j: int| 0 <= j < n ==> (#[trigger] a.slots[j]).entry is Some == b.slots[j].entry is Some,
    ensures
        a.live_upto(n) == b.live_upto(n),
    decreases n,
{
    if n > 0 {
        lemma_live_agree(a, b, n - 1);
        assert(a.slots[n - 1].entry is Some == b.slots[n - 1].entry is Some);
    }
}

/// In a well-formed table a resource without dependents is held by no live
/// resource.
pub proof fn lemma_childless(m: TableModel, p: int, q: int)
    requires
        m.wf_loose(),
        m.live(p),
        m.rec(p).children == 0,
        m.live(q),
    ensures
        m.rec(q).deps.count(p) == 0,
{
    assert(m.slot_ok(p));
    lemma_refs_lower(m, m.slots.len() as int, q, p);
}

/// Changing how many owners a live resource has, or what it has to
/// acknowledge, keeps the table well formed up to resources left alone.
pub proof fn lemma_touch(m: TableModel, i: int, rec: Record)
    requires
        m.wf_loose(),
        m.live(i),
        rec.kind == m.rec(i).kind,
        rec.raw == m.rec(i).raw,
        rec.user_data == m.rec(i).user_data,
        rec.children == m.rec(i).children,
        rec.deps == m.rec(i).deps,
    ensures
        m.with_rec(i, rec).wf_loose(),
        forall|j: int| j != i ==> m.with_rec(i, rec).unowned(j) == m.unowned(j),
{
    let r = m.with_rec(i, rec);
    assert forall|j: int| 0 <= j < r.slots.len() implies #[trigger] r.slot_ok(j) by {
        assert(m.slot_ok(j));
        if r.live(j) {
            assert forall|k: int| 0 <= k < m.slots.len() implies slot_refs(
                #[trigger] m.slots[k],
                j,
            ) == slot_refs(r.slots[k], j) by {}
            lemma_refs_agree(m, r, m.slots.len() as int, j);
            assert(r.registry(j) == m.registry(j));
            assert forall|id: ResourceId|
                #![trigger r.registry(j).contains(id)]
                #![trigger r.bound(id, j)]
                r.registry(j).contains(id) <==> (r.rec(j).kind == ResourceKind::CompChannel
                    && r.bound(id, j)) by {
                assert(r.bound(id, j) == m.bound(id, j));
            }
        }
    }
}

/// A new resource under valid parents, in the next slot, keeps the table well
/// formed.
pub proof fn lemma_place_wf(
    m: TableModel,
    i: int,
    kind: ResourceKind,
    raw: usize,
    user_data: usize,
    parents: Parents,
)
    requires
        m.wf(),
        raw != 0,
        m.adoptable(kind, parents),
        m.next_slot(i),
    ensures
        m.place(i, kind, raw, user_data, parents.links()).wf(),
{
    let deps = parents.links();
    let rec = fresh_record(kind, raw, user_data, deps);
    let r = m.place(i, kind, raw, user_data, deps);
    let n = m.slots.len() as int;
    assert(!m.live(i));
    assert(deps.d0 is Some ==> m.live(deps.d0->0 as int));
    assert(deps.d1 is Some ==> m.live(deps.d1->0 as int));
    assert(deps.d2 is Some ==> m.live(deps.d2->0 as int));
    assert(deps.d3 is Some ==> m.live(deps.d3->0 as int));
    assert forall|j: int| 0 <= j < r.slots.len() implies #[trigger] r.slot_ok(j) by {
        assert(r.slots[j] == m.placed_slot(i, rec, j));
        if r.live(j) {
            if j == i {
                assert forall|k: int| 0 <= k < r.slots.len() implies slot_refs(
                    #[trigger] r.slots[k],
                    i,
                ) == 0 by {
                    assert(r.slots[k] == m.placed_slot(i, rec, k));
                    if k != i {
                        assert(m.slot_ok(k));
                    }
                }
                lemma_refs_zero(r, r.slots.len() as int, i);
                lemma_new_links_valid(m, i, kind, raw, user_data, parents);
                assert forall|id: ResourceId|
                    #![trigger r.registry(i).contains(id)]
                    #![trigger r.bound(id, i)]
                    r.registry(i).contains(id) <==> (r.rec(i).kind == ResourceKind::CompChannel
                        && r.bound(id, i)) by {
                    if r.bound(id, i) {
                        let q = id.index as int;
                        assert(r.slots[q] == m.placed_slot(i, rec, q));
                        if q != i {
                            assert(m.slot_ok(q));
                        }
                    }
                }
            } else {
                lemma_place_old_slot(m, i, kind, raw, user_data, parents, j);
            }
        }
    }
    assert forall|j: int| 0 <= j < r.slots.len() implies !#[trigger] r.unowned(j) by {
        assert(r.slots[j] == m.placed_slot(i, rec, j));
        if j != i && r.live(j) {
            assert(!m.unowned(j));
            assert(m.slot_ok(j));
            lemma_refs_bound(m, n, j);
        }
    }
}

/// The dependencies of a new resource are valid in the table that holds it.
proof fn lemma_new_links_valid(
    m: TableModel,
    i: int,
    kind: ResourceKind,
    raw: usize,
    user_data: usize,
    parents: Parents,
)
    requires
        m.wf(),
        m.adoptable(kind, parents),
        m.next_slot(i),
    ensures
        m.place(i, kind, raw, user_data, parents.links()).links_valid(kind, parents.links()),
{
    let deps = parents.links();
    let rec = fresh_record(kind, raw, user_data, deps);
    let r = m.place(i, kind, raw, user_data, deps);
    assert forall|q: int| m.live(q) implies r.live(q) && r.rec(q).kind == m.rec(q).kind by {
        assert(r.slots[q] == m.placed_slot(i, rec, q));
    }
    assert(deps.d0 is Some ==> m.live(deps.d0->0 as int));
    assert(deps.d1 is Some ==> m.live(deps.d1->0 as int));
    assert(deps.d2 is Some ==> m.live(deps.d2->0 as int));
    assert(deps.d3 is Some ==> m.live(deps.d3->0 as int));
}

/// A resource that was there before a new one was placed is still in order.
proof fn lemma_place_old_slot(
    m: TableModel,
    i: int,
    kind: ResourceKind,
    raw: usize,
    user_data: usize,
    parents: Parents,
    j: int,
)
    requires
        m.wf(),
        raw != 0,
        m.adoptable(kind, parents),
        m.next_slot(i),
        m.live(j),
        j != i,
    ensures
        m.place(i, kind, raw, user_data, parents.links()).slot_ok(j),
{
    let deps = parents.links();
    let rec = fresh_record(kind, raw, user_data, deps);
    let r = m.place(i, kind, raw, user_data, deps);
    let n = m.slots.len() as int;
    assert(!m.live(i));
    assert(m.slot_ok(j));
    assert(r.slots[j] == m.placed_slot(i, rec, j));
    assert(r.slots[i] == m.placed_slot(i, rec, i));
    assert forall|k: int| 0 <= k < n && k != i implies slot_refs(#[trigger] m.slots[k], j)
        == slot_refs(r.slots[k], j) by {
        assert(r.slots[k] == m.placed_slot(i, rec, k));
    }
    if i == n {
        lemma_refs_agree(m, r, n, j);
    } else {
        lemma_refs_change(m, r, n, i, j);
    }
    lemma_refs_bound(m, n, j);
    assert(r.refs_to(j) == m.refs_to(j) + deps.count(j));
    assert(r.rec(j).children == m.rec(j).children + deps.count(j));
    assert forall|q: int| m.live(q) implies r.live(q) && r.rec(q).kind == m.rec(q).kind by {
        assert(r.slots[q] == m.placed_slot(i, rec, q));
    }
    assert(r.links_valid(r.rec(j).kind, r.rec(j).deps));
    assert forall|id: ResourceId|
        #![trigger r.registry(j).contains(id)]
        #![trigger r.bound(id, j)]
        r.registry(j).contains(id) <==> (r.rec(j).kind == ResourceKind::CompChannel && r.bound(
            id,
            j,
        )) by {
        assert(m.registry(j).contains(id) <==> (m.rec(j).kind == ResourceKind::CompChannel
            && m.bound(id, j)));
        let q = id.index as int;
        if 0 <= q < r.slots.len() {
            assert(r.slots[q] == m.placed_slot(i, rec, q));
        }
        if q != i {
            assert(r.bound(id, j) == m.bound(id, j));
        } else {
            assert(!m.bound(id, j));
            if hit(deps.d0, j) == 1 {
                assert(m.live(j));
                assert(link_ok(kind, 0, Some(m.rec(j).kind)));
            }
        }
    }
}

/// Taking away a resource that has neither owner nor dependent keeps the
/// table well formed up to resources left alone, and leaves alone only what it
/// depended on.
pub proof fn lemma_detach(m: TableModel, p: int)
    requires
        m.wf_loose(),
        m.unowned(p),
    ensures
        m.detach(p).wf_loose(),
        forall|q: int|
            #[trigger] m.detach(p).unowned(q) ==> q != p && (m.unowned(q) || m.rec(p).deps.count(
                q,
            ) > 0),
{
    let r = m.detach(p);
    let n = m.slots.len() as int;
    assert(m.slot_ok(p));
    assert forall|j: int| 0 <= j < r.slots.len() implies #[trigger] r.slot_ok(j) by {
        assert(r.slots[j] == m.detached_slot(p, j));
        if r.live(j) {
            lemma_detach_old_slot(m, p, j);
        }
    }
    assert forall|q: int| #[trigger] r.unowned(q) implies q != p && (m.unowned(q) || m.rec(
        p,
    ).deps.count(q) > 0) by {
        assert(r.slots[q] == m.detached_slot(p, q));
    }
}

/// A resource that stays when another one is taken away is still in order.
proof fn lemma_detach_old_slot(m: TableModel, p: int, j: int)
    requires
        m.wf_loose(),
        m.unowned(p),
        m.live(j),
        j != p,
    ensures
        m.detach(p).slot_ok(j),
{
    let r = m.detach(p);
    let n = m.slots.len() as int;
    let gone = m.rec(p);
    assert(m.slot_ok(p));
    assert(m.slot_ok(j));
    assert(r.slots[j] == m.detached_slot(p, j));
    assert(r.slots[p] == m.detached_slot(p, p));
    assert forall|k: int| 0 <= k < n && k != p implies slot_refs(#[trigger] m.slots[k], j)
        == slot_refs(r.slots[k], j) by {
        assert(r.slots[k] == m.detached_slot(p, k));
    }
    lemma_refs_change(m, r, n, p, j);
    lemma_refs_lower(m, n, p, j);
    assert(r.refs_to(j) == m.refs_to(j) - gone.deps.count(j));
    assert(r.rec(j).children == m.rec(j).children - gone.deps.count(j));
    lemma_childless(m, p, j);
    assert forall|q: int| m.live(q) && q != p implies r.live(q) && r.rec(q).kind == m.rec(
        q,
    ).kind by {
        assert(r.slots[q] == m.detached_slot(p, q));
    }
    assert(r.links_valid(r.rec(j).kind, r.rec(j).deps));
    assert forall|id: ResourceId|
        #![trigger r.registry(j).contains(id)]
        #![trigger r.bound(id, j)]
        r.registry(j).contains(id) <==> (r.rec(j).kind == ResourceKind::CompChannel && r.bound(
            id,
            j,
        )) by {
        assert(m.registry(j).contains(id) <==> (m.rec(j).kind == ResourceKind::CompChannel
            && m.bound(id, j)));
        let q = id.index as int;
        if 0 <= q < r.slots.len() {
            assert(r.slots[q] == m.detached_slot(p, q));
        }
        if q != p {
            assert(r.bound(id, j) == m.bound(id, j));
        } else {
            assert(!r.bound(id, j));
        }
    }
}

/// What [`TableModel::reap`] and [`TableModel::reap_link`] keep of a table:
/// it stays well formed up to resources left alone, fills no slot, and
/// changes the kind of no resource.
pub open spec fn shrinks_to(m: TableModel, r: TableModel) -> bool {
    &&& r.wf_loose()
    &&& r.slots.len() == m.slots.len()
    &&& forall|q: int| #[trigger] r.live(q) ==> m.live(q) && r.rec(q).kind == m.rec(q).kind
}

/// Destroying from slot `p` on keeps the table well formed up to resources
/// left alone, and leaves alone only what was left alone before, and not `p`.
pub proof fn lemma_reap(m: TableModel, p: int)
    requires
        m.wf_loose(),
    ensures
        shrinks_to(m, m.reap(p).0),
        forall|q: int| #[trigger] m.reap(p).0.unowned(q) ==> m.unowned(q) && q != p,
    decreases m.rank_at(p), 1nat,
{
    if m.unowned(p) {
        let rec = m.rec(p);
        let limit = m.rank_at(p);
        let m0 = m.detach(p);
        lemma_detach(m, p);
        assert(m.slot_ok(p));
        assert forall|q: int| #[trigger] m0.live(q) implies m.live(q) && m0.rec(q).kind == m.rec(
            q,
        ).kind && q != p by {
            assert(m0.slots[q] == m.detached_slot(p, q));
        }
        lemma_link_rank(m, m0, p, 0, rec.deps.d0);
        lemma_reap_link(m0, rec.deps.d0, limit);
        let r0 = m0.reap_link(rec.deps.d0, limit).0;
        lemma_link_rank(m, r0, p, 1, rec.deps.d1);
        lemma_reap_link(r0, rec.deps.d1, limit);
        let r1 = r0.reap_link(rec.deps.d1, limit).0;
        lemma_link_rank(m, r1, p, 2, rec.deps.d2);
        lemma_reap_link(r1, rec.deps.d2, limit);
        let r2 = r1.reap_link(rec.deps.d2, limit).0;
        lemma_link_rank(m, r2, p, 3, rec.deps.d3);
        lemma_reap_link(r2, rec.deps.d3, limit);
        let r3 = r2.reap_link(rec.deps.d3, limit).0;
        assert(r3 == m.reap(p).0);
        assert forall|q: int| #[trigger] r3.unowned(q) implies m.unowned(q) && q != p by {
            assert(r2.unowned(q));
            assert(r1.unowned(q));
            assert(r0.unowned(q));
            assert(m0.unowned(q));
        }
        assert forall|q: int| #[trigger] r3.live(q) implies m.live(q) && r3.rec(q).kind == m.rec(
            q,
        ).kind by {
            assert(r2.live(q));
            assert(r1.live(q));
            assert(r0.live(q));
            assert(m0.live(q));
        }
    }
}

/// A dependency of the resource in slot `p` of `m` has, in any table that
/// came from `m` without filling a slot or changing a kind, a smaller rank
/// than that resource.
proof fn lemma_link_rank(m: TableModel, r: TableModel, p: int, k: int, d: Option<u32>)
    requires
        m.live(p),
        m.link_valid(m.rec(p).kind, k, d),
        forall|q: int| #[trigger] r.live(q) ==> m.live(q) && r.rec(q).kind == m.rec(q).kind,
    ensures
        d is Some ==> r.rank_at(d->0 as int) < m.rank_at(p),
{
    if d is Some {
        let q = d->0 as int;
        if r.live(q) {
            lemma_link_descends(m.rec(p).kind, k, m.rec(q).kind);
        }
    }
}

/// [`lemma_reap`] for a dependency of smaller rank than `limit`.
pub proof fn lemma_reap_link(m: TableModel, d: Option<u32>, limit: nat)
    requires
        m.wf_loose(),
        d is Some ==> m.rank_at(d->0 as int) < limit,
    ensures
        shrinks_to(m, m.reap_link(d, limit).0),
        forall|q: int|
            #[trigger] m.reap_link(d, limit).0.unowned(q) ==> m.unowned(q) && !(d is Some && d->0
                == q),
    decreases limit, 0nat,
{
    if d is Some {
        lemma_reap(m, d->0 as int);
    }
}

/// Destroying from a dependency on keeps the table well formed up to resources
/// left alone, whatever the rank of the dependency.
pub proof fn lemma_reap_guarded(m: TableModel, d: Option<u32>, limit: nat)
    requires
        m.wf_loose(),
    ensures
        m.reap_link(d, limit).0.wf_loose(),
{
    if d is Some && m.rank_at(d->0 as int) < limit {
        lemma_reap(m, d->0 as int);
    }
}

/// One more owner keeps the table well formed.
pub proof fn lemma_retain_wf(m: TableModel, id: ResourceId)
    requires
        m.wf(),
        m.resolves(id),
        m.rec(id.index as int).handles < u64::MAX,
    ensures
        m.retain(id).wf(),
{
    let i = id.index as int;
    let rec = Record { handles: (m.rec(i).handles + 1) as u64, ..m.rec(i) };
    lemma_touch(m, i, rec);
    let r = m.retain(id);
    assert forall|j: int| 0 <= j < r.slots.len() implies !#[trigger] r.unowned(j) by {
        if j != i {
            assert(!m.unowned(j));
        }
    }
}

/// More to acknowledge keeps the table well formed.
pub proof fn lemma_acknowledge_wf(m: TableModel, id: ResourceId, cnt: u32)
    requires
        m.wf(),
        m.resolves(id),
    ensures
        m.acknowledge(id, cnt).wf(),
{
    let i = id.index as int;
    let rec = Record { acks: ((m.rec(i).acks + cnt) % 0x1_0000_0000) as u32, ..m.rec(i) };
    lemma_touch(m, i, rec);
    let r = m.acknowledge(id, cnt);
    assert forall|j: int| 0 <= j < r.slots.len() implies !#[trigger] r.unowned(j) by {
        assert(!m.unowned(j));
    }
}

/// One owner less, and the teardown that follows, keeps the table well
/// formed: nothing is left without owner and dependent.
pub proof fn lemma_release_wf(m: TableModel, id: ResourceId)
    requires
        m.wf(),
        m.held(id),
    ensures
        m.release(id).0.wf(),
        m.release(id).0.slots.len() == m.slots.len(),
{
    let i = id.index as int;
    let rec = Record { handles: (m.rec(i).handles - 1) as u64, ..m.rec(i) };
    let m1 = m.with_rec(i, rec);
    lemma_touch(m, i, rec);
    lemma_reap(m1, i);
    let r = m1.reap(i).0;
    assert forall|j: int| 0 <= j < r.slots.len() implies !#[trigger] r.unowned(j) by {
        if r.unowned(j) {
            assert(m1.unowned(j));
            assert(m.unowned(j));
        }
    }
}

} // verus!
