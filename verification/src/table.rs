//! The arena of live resources.
use crate::error::Error;
use crate::lemmas::{
    lemma_acknowledge_wf, lemma_detach, lemma_place_wf, lemma_reap_guarded, lemma_refs_bound,
    lemma_refs_lower, lemma_release_wf, lemma_retain_wf,
};
use crate::model::{fresh_record, EntryModel, SlotModel, TableModel};
use crate::resource::{
    link_allowed, Links, Parents, Record, ResourceId, ResourceKind, Teardown,
};
use crate::weakset::WeakSet;
use vstd::prelude::*;

verus! {

struct Slot {
    generation: u32,
    live: bool,
    /// Meaningful only while `live`.
    rec: Record,
    /// Empty unless the slot holds a completion channel.
    registry: WeakSet,
}

impl Slot {
    spec fn model(self) -> SlotModel {
        SlotModel {
            generation: self.generation,
            entry: if self.live {
                Some(EntryModel { rec: self.rec, registry: self.registry@ })
            } else {
                None
            },
        }
    }
}

/// The arena in which every live resource has a slot. It counts, for each
/// resource, its owners and the live resources that depend on it, and it
/// destroys a resource exactly when both counts have come down to zero.
pub struct ResourceTable {
    slots: Vec<Slot>,
}

impl View for ResourceTable {
    type V = TableModel;

    closed spec fn view(&self) -> TableModel {
        TableModel { slots: Seq::new(self.slots@.len(), |i: int| self.slots@[i].model()) }
    }
}

impl ResourceTable {
    spec fn repr_ok(&self) -> bool {
        forall|i: int| 0 <= i < self.slots@.len() ==> (#[trigger] self.slots@[i]).registry.wf()
    }

    /// The table is well formed, see [`TableModel::wf`].
    pub closed spec fn wf(&self) -> bool {
        self.repr_ok() && self@.wf()
    }

    /// A well-formed table has a well-formed model.
    pub proof fn lemma_wf(&self)
        requires
            self.wf(),
        ensures
            self@.wf(),
    {
    }

    /// A table without resources.
    pub fn new() -> (t: Self)
        ensures
            t.wf(),
            t@.slots.len() == 0,
    {
        ResourceTable { slots: Vec::new() }
    }

    /// How many resources live in the table.
    pub fn live_count(&self) -> (n: usize)
        ensures
            n == self@.live_count(),
    {
        let mut n: usize = 0;
        let mut i: usize = 0;
        while i < self.slots.len()
            invariant
                i <= self.slots@.len(),
                n == self@.live_upto(i as int),
                n <= i,
            decreases self.slots@.len() - i,
        {
            if self.slots[i].live {
                n += 1;
            }
            i += 1;
        }
        n
    }

    /// Whether `id` names a live resource.
    pub fn resolves(&self, id: ResourceId) -> (b: bool)
        ensures
            b == self@.resolves(id),
    {
        let i = id.index as usize;
        i < self.slots.len() && self.slots[i].live && self.slots[i].generation == id.generation
    }

    /// The record of the resource that `id` names, if it names a live one.
    pub fn record(&self, id: ResourceId) -> (r: Option<Record>)
        ensures
            r is Some == self@.resolves(id),
            r is Some ==> r->0 == self@.rec(id.index as int),
    {
        if self.resolves(id) {
            Some(self.slots[id.index as usize].rec)
        } else {
            None
        }
    }

    /// Whether `id` names a live resource of kind `kind`.
    pub fn resolves_as(&self, id: ResourceId, kind: ResourceKind) -> (b: bool)
        ensures
            b == self@.resolves_as(id, kind),
    {
        self.resolves(id) && self.slots[id.index as usize].rec.kind == kind
    }

    /// How many completion queues are registered with the channel `channel`;
    /// `None` where `channel` names no live channel.
    pub fn registry_len(&self, channel: ResourceId) -> (r: Option<usize>)
        requires
            self.wf(),
        ensures
            r is Some == self@.resolves_as(channel, ResourceKind::CompChannel),
            r is Some ==> r->0 == self@.registry(channel.index as int).len(),
    {
        if self.resolves_as(channel, ResourceKind::CompChannel) {
            Some(self.slots[channel.index as usize].registry.len())
        } else {
            None
        }
    }

    /// Whether the completion queue `queue` is registered with the channel
    /// `channel`.
    pub fn registered(&self, channel: ResourceId, queue: ResourceId) -> (b: bool)
        ensures
            b == (self@.resolves_as(channel, ResourceKind::CompChannel) && self@.registry(
                channel.index as int,
            ).contains(queue)),
    {
        self.resolves_as(channel, ResourceKind::CompChannel) && self.slots[channel.index as usize].registry.contains(
            queue,
        )
    }

    /// The first slot that can be filled again, if there is one.
    fn first_vacant(&self) -> (r: Option<usize>)
        ensures
            match r {
                Some(i) => self@.vacant(i as int) && forall|j: int| 0 <= j < i ==> !self@.vacant(j),
                None => forall|j: int| !self@.vacant(j),
            },
    {
        let mut i: usize = 0;
        while i < self.slots.len()
            invariant
                i <= self.slots@.len(),
                forall|j: int| 0 <= j < i ==> !self@.vacant(j),
            decreases self.slots@.len() - i,
        {
            if !self.slots[i].live && self.slots[i].generation < u32::MAX {
                return Some(i);
            }
            i += 1;
        }
        None
    }

    /// Whether the table can take one more resource.
    pub fn has_room(&self) -> (b: bool)
        ensures
            b == self@.has_room(),
    {
        if self.slots.len() < u32::MAX as usize {
            return true;
        }
        self.first_vacant().is_some()
    }

    fn parent_ok(&self, kind: ResourceKind, k: u8, p: Option<ResourceId>) -> (b: bool)
        ensures
            b == self@.parent_valid(kind, k as int, p),
    {
        match p {
            Some(id) => self.resolves(id) && link_allowed(
                kind,
                k,
                Some(self.slots[id.index as usize].rec.kind),
            ),
            None => link_allowed(kind, k, None),
        }
    }

    /// Whether a resource of kind `kind` can be created under `parents`.
    pub fn adoptable(&self, kind: ResourceKind, parents: &Parents) -> (b: bool)
        ensures
            b == self@.adoptable(kind, *parents),
    {
        self.parent_ok(kind, 0, parents.first) && self.parent_ok(kind, 1, parents.second)
            && self.parent_ok(kind, 2, parents.third) && self.parent_ok(kind, 3, parents.fourth)
    }

    fn add_child(&mut self, p: Option<ResourceId>)
        requires
            p is Some ==> old(self)@.live(p->0.index as int) && old(self)@.rec(
                p->0.index as int,
            ).children < u64::MAX,
        ensures
            final(self).slots@.len() == old(self).slots@.len(),
            forall|j: int|
                0 <= j < old(self).slots@.len() && !(p is Some && p->0.index == j) ==> final(self).slots@[j] == old(self).slots@[j],
            p is Some ==> final(self).slots@[p->0.index as int] == (Slot {
                rec: Record {
                    children: (old(self).slots@[p->0.index as int].rec.children + 1) as u64,
                    ..old(self).slots@[p->0.index as int].rec
                },
                ..old(self).slots@[p->0.index as int]
            }),
    {
        match p {
            Some(id) => {
                let i = id.index as usize;
                let c = self.slots[i].rec.children;
                self.slots[i].rec.children = c + 1;
            },
            None => {},
        }
    }

    fn drop_child(&mut self, d: Option<u32>)
        requires
            d is Some ==> old(self)@.live(d->0 as int) && old(self)@.rec(d->0 as int).children > 0,
        ensures
            final(self).slots@.len() == old(self).slots@.len(),
            forall|j: int|
                0 <= j < old(self).slots@.len() && !(d is Some && d->0 == j) ==> final(self).slots@[j] == old(self).slots@[j],
            d is Some ==> final(self).slots@[d->0 as int] == (Slot {
                rec: Record {
                    children: (old(self).slots@[d->0 as int].rec.children - 1) as u64,
                    ..old(self).slots@[d->0 as int].rec
                },
                ..old(self).slots@[d->0 as int]
            }),
    {
        match d {
            Some(q) => {
                let i = q as usize;
                let c = self.slots[i].rec.children;
                self.slots[i].rec.children = c - 1;
            },
            None => {},
        }
    }

    /// Enters a new resource of kind `kind`, with the provider handle `raw`
    /// and one owner, under the parents `parents`.
    ///
    /// Fails with [`Error::Released`] where a parent names no live resource of
    /// a kind that may stand in its position, and otherwise with
    /// [`Error::Exhausted`] where the table has no room; the table is then as
    /// it was. Otherwise the resource goes to the first vacant slot, or to a
    /// new one, and its name is returned.
    pub(crate) fn adopt(
        &mut self,
        kind: ResourceKind,
        raw: usize,
        user_data: usize,
        parents: Parents,
    ) -> (r: Result<ResourceId, Error>)
        requires
            old(self).wf(),
            raw != 0,
        ensures
            final(self).wf(),
            match r {
                Ok(id) => {
                    &&& old(self)@.adoptable(kind, parents)
                    &&& old(self)@.next_slot(id.index as int)
                    &&& final(self)@ == old(self)@.place(
                        id.index as int,
                        kind,
                        raw,
                        user_data,
                        parents.links(),
                    )
                    &&& final(self)@.id_at(id.index as int) == id
                    &&& final(self)@.resolves_as(id, kind)
                },
                Err(e) => {
                    &&& final(self)@ == old(self)@
                    &&& !old(self)@.adoptable(kind, parents) ==> e == Error::Released
                    &&& old(self)@.adoptable(kind, parents) ==> e == Error::Exhausted
                        && !old(self)@.has_room()
                },
            },
    {
        if !self.adoptable(kind, &parents) {
            return Err(Error::Released);
        }
        let deps = Links {
            d0: index_of(parents.first),
            d1: index_of(parents.second),
            d2: index_of(parents.third),
            d3: index_of(parents.fourth),
        };
        let rec = Record { kind, raw, user_data, handles: 1, children: 0, deps, acks: 0 };
        let ghost m = self@;
        let ghost before = self.slots@;
        let slot: usize = match self.first_vacant() {
            Some(i) => i,
            None => {
                if self.slots.len() >= u32::MAX as usize {
                    return Err(Error::Exhausted);
                }
                self.slots.len()
            },
        };
        proof {
            lemma_place_wf(m, slot as int, kind, raw, user_data, parents);
            assert forall|j: int| 0 <= j < m.slots.len() && m.live(j) implies m.rec(j).children + 4
                <= u64::MAX by {
                assert(m.slot_ok(j));
                lemma_refs_bound(m, m.slots.len() as int, j);
            }
        }
        let id = if slot == self.slots.len() {
            self.slots.push(Slot { generation: 0, live: true, rec, registry: WeakSet::new() });
            ResourceId { index: slot as u32, generation: 0 }
        } else {
            let generation = self.slots[slot].generation;
            self.slots[slot].live = true;
            self.slots[slot].rec = rec;
            self.slots[slot].registry = WeakSet::new();
            ResourceId { index: slot as u32, generation }
        };
        let ghost filled = self.slots@;
        self.add_child(parents.first);
        self.add_child(parents.second);
        self.add_child(parents.third);
        self.add_child(parents.fourth);
        let ghost counted = self.slots@;
        if kind == ResourceKind::CompletionQueue {
            if let Some(channel) = parents.first {
                let c = channel.index as usize;
                self.slots[c].registry.insert(id);
            }
        }
        proof {
            let r = m.place(slot as int, kind, raw, user_data, deps);
            assert(self@.slots.len() == r.slots.len());
            assert forall|j: int| 0 <= j < r.slots.len() implies self@.slots[j] == r.slots[j] by {
                assert(r.slots[j] == m.placed_slot(slot as int, fresh_record(kind, raw, user_data, deps), j));
                if j != slot {
                    assert(filled[j] == before[j]);
                    assert(m.slots[j] == before[j].model());
                    assert(counted[j].registry == before[j].registry);
                    assert(counted[j].live == before[j].live);
                    if before[j].live {
                        assert(counted[j].rec.children == before[j].rec.children + deps.count(j));
                        assert(self.slots@[j].registry@ =~= r.slots[j].entry->0.registry);
                    }
                } else {
                    assert(counted[j] == filled[j]);
                }
            }
            assert(self@.slots =~= r.slots);
        }
        Ok(id)
    }

    /// Counts one more owner of the resource `id`.
    ///
    /// Fails with [`Error::Released`] where `id` names no live resource, and
    /// with [`Error::Exhausted`] where the owner count cannot grow; the table
    /// is then as it was.
    pub(crate) fn retain(&mut self, id: ResourceId) -> (r: Result<(), Error>)
        requires
            old(self).wf(),
        ensures
            final(self).wf(),
            match r {
                Ok(_) => old(self)@.resolves(id) && old(self)@.rec(id.index as int).handles
                    < u64::MAX && final(self)@ == old(self)@.retain(id),
                Err(e) => {
                    &&& final(self)@ == old(self)@
                    &&& !old(self)@.resolves(id) ==> e == Error::Released
                    &&& old(self)@.resolves(id) ==> e == Error::Exhausted && old(self)@.rec(
                        id.index as int,
                    ).handles == u64::MAX
                },
            },
    {
        if !self.resolves(id) {
            return Err(Error::Released);
        }
        let i = id.index as usize;
        let h = self.slots[i].rec.handles;
        if h == u64::MAX {
            return Err(Error::Exhausted);
        }
        proof {
            lemma_retain_wf(self@, id);
        }
        self.slots[i].rec.handles = h + 1;
        assert(self@.slots =~= old(self)@.retain(id).slots);
        Ok(())
    }

    /// Adds `cnt` to the events that the completion queue `id` has to
    /// acknowledge to the provider when it is destroyed. The count wraps.
    ///
    /// Fails with [`Error::Released`] where `id` names no live completion
    /// queue; the table is then as it was.
    pub(crate) fn acknowledge(&mut self, id: ResourceId, cnt: u32) -> (r: Result<(), Error>)
        requires
            old(self).wf(),
        ensures
            final(self).wf(),
            match r {
                Ok(_) => old(self)@.resolves_as(id, ResourceKind::CompletionQueue) && final(self)@
                    == old(self)@.acknowledge(id, cnt),
                Err(e) => e == Error::Released && !old(self)@.resolves_as(
                    id,
                    ResourceKind::CompletionQueue,
                ) && final(self)@ == old(self)@,
            },
    {
        if !self.resolves_as(id, ResourceKind::CompletionQueue) {
            return Err(Error::Released);
        }
        let i = id.index as usize;
        let a = self.slots[i].rec.acks;
        proof {
            lemma_acknowledge_wf(self@, id, cnt);
        }
        self.slots[i].rec.acks = a.wrapping_add(cnt);
        assert(self@.slots =~= old(self)@.acknowledge(id, cnt).slots);
        Ok(())
    }

    /// Takes the resource in slot `p`, which has neither owner nor dependent,
    /// out of the table.
    fn detach(&mut self, p: usize)
        requires
            old(self).repr_ok(),
            old(self)@.wf_loose(),
            old(self)@.unowned(p as int),
        ensures
            final(self).repr_ok(),
            final(self)@ == old(self)@.detach(p as int),
    {
        let ghost m = self@;
        let ghost before = self.slots@;
        let rec = self.slots[p].rec;
        let generation = self.slots[p].generation;
        proof {
            assert(m.slot_ok(p as int));
            assert forall|j: int| 0 <= j < m.slots.len() && m.live(j) implies m.rec(j).children
                >= rec.deps.count(j) by {
                assert(m.slot_ok(j));
                lemma_refs_lower(m, m.slots.len() as int, p as int, j);
            }
        }
        if rec.kind == ResourceKind::CompletionQueue {
            if let Some(c) = rec.deps.d0 {
                self.slots[c as usize].registry.remove(
                    ResourceId { index: p as u32, generation },
                );
            }
        }
        let ghost unenrolled = self.slots@;
        self.slots[p].live = false;
        self.slots[p].generation = generation + 1;
        let ghost vacated = self.slots@;
        self.drop_child(rec.deps.d0);
        self.drop_child(rec.deps.d1);
        self.drop_child(rec.deps.d2);
        self.drop_child(rec.deps.d3);
        proof {
            let r = m.detach(p as int);
            assert forall|j: int| 0 <= j < r.slots.len() implies self@.slots[j] == r.slots[j] by {
                assert(r.slots[j] == m.detached_slot(p as int, j));
                assert(m.slots[j] == before[j].model());
                if j != p {
                    assert(vacated[j] == unenrolled[j]);
                    assert(self.slots@[j].registry == unenrolled[j].registry);
                    assert(self.slots@[j].live == before[j].live);
                    if before[j].live {
                        assert(self.slots@[j].rec.children == before[j].rec.children
                            - rec.deps.count(j));
                        assert(self.slots@[j].registry@ =~= r.slots[j].entry->0.registry);
                    }
                }
            }
            assert(self@.slots =~= r.slots);
        }
    }

    /// Destroys from slot `p` on, see [`TableModel::reap`], and appends the
    /// teardown calls that this owes to `out`.
    fn reap(&mut self, p: usize, out: &mut Vec<Teardown>)
        requires
            old(self).repr_ok(),
            old(self)@.wf_loose(),
        ensures
            final(self).repr_ok(),
            final(self)@ == old(self)@.reap(p as int).0,
            final(out)@ == old(out)@ + old(self)@.reap(p as int).1,
        decreases old(self)@.rank_at(p as int), 1nat,
    {
        let ghost m = self@;
        if !(p < self.slots.len() && self.slots[p].live && self.slots[p].rec.handles == 0
            && self.slots[p].rec.children == 0) {
            assert(!m.unowned(p as int));
            assert(out@ =~= old(out)@ + m.reap(p as int).1);
            return ;
        }
        let rec = self.slots[p].rec;
        let limit: u8 = rec.kind.depth() + 1;
        out.push(Teardown { kind: rec.kind, raw: rec.raw, acks: rec.acks });
        self.detach(p);
        proof {
            lemma_detach(m, p as int);
        }
        let ghost m0 = self@;
        let ghost l = limit as nat;
        self.reap_link(rec.deps.d0, limit, out);
        proof {
            lemma_reap_guarded(m0, rec.deps.d0, l);
        }
        let ghost r0 = self@;
        self.reap_link(rec.deps.d1, limit, out);
        proof {
            lemma_reap_guarded(r0, rec.deps.d1, l);
        }
        let ghost r1 = self@;
        self.reap_link(rec.deps.d2, limit, out);
        proof {
            lemma_reap_guarded(r1, rec.deps.d2, l);
        }
        self.reap_link(rec.deps.d3, limit, out);
        proof {
            let a0 = m0.reap_link(rec.deps.d0, l).1;
            let a1 = r0.reap_link(rec.deps.d1, l).1;
            let a2 = r1.reap_link(rec.deps.d2, l).1;
            let a3 = self@.reap_link(rec.deps.d3, l).1;
            assert(out@ =~= old(out)@ + m.reap(p as int).1);
        }
    }

    /// [`Self::reap`] on the dependency `d` of a resource of rank `limit`.
    fn reap_link(&mut self, d: Option<u32>, limit: u8, out: &mut Vec<Teardown>)
        requires
            old(self).repr_ok(),
            old(self)@.wf_loose(),
        ensures
            final(self).repr_ok(),
            final(self)@ == old(self)@.reap_link(d, limit as nat).0,
            final(out)@ == old(out)@ + old(self)@.reap_link(d, limit as nat).1,
        decreases limit, 0nat,
    {
        match d {
            Some(q) => {
                let i = q as usize;
                let rank: u8 = if i < self.slots.len() && self.slots[i].live {
                    self.slots[i].rec.kind.depth() + 1
                } else {
                    0
                };
                if rank < limit {
                    self.reap(i, out);
                } else {
                    assert(out@ =~= old(out)@ + old(self)@.reap_link(d, limit as nat).1);
                }
            },
            None => {
                assert(out@ =~= old(out)@ + old(self)@.reap_link(d, limit as nat).1);
            },
        }
    }

    /// Counts one owner less of the resource `id`, and destroys what is left
    /// without owner and dependent: first that resource, then, in the order of
    /// its dependency positions, whatever it depended on, and so on. Returns
    /// the teardown calls that are owed to the provider, in the order in which
    /// they are owed.
    ///
    /// Fails with [`Error::Released`] where `id` names no live resource that
    /// has an owner; the table is then as it was.
    pub(crate) fn release(&mut self, id: ResourceId) -> (r: Result<Vec<Teardown>, Error>)
        requires
            old(self).wf(),
        ensures
            final(self).wf(),
            match r {
                Ok(owed) => old(self)@.held(id) && final(self)@ == old(self)@.release(id).0
                    && owed@ == old(self)@.release(id).1,
                Err(e) => e == Error::Released && !old(self)@.held(id) && final(self)@ == old(self)@,
            },
    {
        if !self.resolves(id) {
            return Err(Error::Released);
        }
        let i = id.index as usize;
        let h = self.slots[i].rec.handles;
        if h == 0 {
            return Err(Error::Released);
        }
        let ghost m = self@;
        self.slots[i].rec.handles = h - 1;
        let ghost m1 = self@;
        proof {
            let rec = Record { handles: (m.rec(i as int).handles - 1) as u64, ..m.rec(i as int) };
            assert(m1.slots =~= m.with_rec(i as int, rec).slots);
            crate::lemmas::lemma_touch(m, i as int, rec);
            lemma_release_wf(m, id);
        }
        let mut owed: Vec<Teardown> = Vec::new();
        self.reap(i, &mut owed);
        assert(owed@ =~= m.release(id).1);
        Ok(owed)
    }
}

fn index_of(p: Option<ResourceId>) -> (d: Option<u32>)
    ensures
        d == crate::resource::slot_of(p),
{
    match p {
        Some(id) => Some(id.index),
        None => None,
    }
}

} // verus!
