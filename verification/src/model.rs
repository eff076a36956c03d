//! The mathematical model of the resource table: what is in each slot, what
//! makes a table well formed, and what each operation does to it.
use crate::resource::{hit, link_ok, Links, Parents, Record, ResourceId, ResourceKind, Teardown};
use vstd::prelude::*;

verus! {

/// A live resource: its record, and the completion queues that are registered
/// with it. Only a completion channel has any registered.
pub struct EntryModel {
    pub rec: Record,
    pub registry: Set<ResourceId>,
}

/// One slot: the generation it is in, and the resource that lives in it, if
/// one does.
pub struct SlotModel {
    pub generation: u32,
    pub entry: Option<EntryModel>,
}

/// The table as a sequence of slots.
pub struct TableModel {
    pub slots: Seq<SlotModel>,
}

/// How many dependency positions of the resource in `slot` hold the slot `p`.
pub open spec fn slot_refs(slot: SlotModel, p: int) -> nat {
    match slot.entry {
        Some(e) => e.rec.deps.count(p),
        None => 0,
    }
}

/// The record of a resource that has just been created.
pub open spec fn fresh_record(
    kind: ResourceKind,
    raw: usize,
    user_data: usize,
    deps: Links,
) -> Record {
    Record { kind, raw, user_data, handles: 1, children: 0, deps, acks: 0 }
}

/// The teardown call that destroying the resource of `rec` owes.
pub open spec fn teardown_of(rec: Record) -> Teardown {
    Teardown { kind: rec.kind, raw: rec.raw, acks: rec.acks }
}

impl TableModel {
    /// A resource lives in slot `i`.
    pub open spec fn live(self, i: int) -> bool {
        0 <= i < self.slots.len() && self.slots[i].entry is Some
    }

    pub open spec fn rec(self, i: int) -> Record {
        self.slots[i].entry->0.rec
    }

    pub open spec fn registry(self, i: int) -> Set<ResourceId> {
        self.slots[i].entry->0.registry
    }

    /// The name under which slot `i` is known in its present generation.
    pub open spec fn id_at(self, i: int) -> ResourceId {
        ResourceId { index: i as u32, generation: self.slots[i].generation }
    }

    /// `id` names a live resource.
    pub open spec fn resolves(self, id: ResourceId) -> bool {
        self.live(id.index as int) && self.slots[id.index as int].generation == id.generation
    }

    /// `id` names a live resource of kind `kind`.
    pub open spec fn resolves_as(self, id: ResourceId, kind: ResourceKind) -> bool {
        self.resolves(id) && self.rec(id.index as int).kind == kind
    }

    /// `id` named a resource that has been destroyed: it resolves no more, now
    /// or later.
    pub open spec fn retired(self, id: ResourceId) -> bool {
        id.index < self.slots.len() && self.slots[id.index as int].generation > id.generation
    }

    /// `later` may have come from this table: it has every slot of this
    /// table, and no slot is in an earlier generation.
    pub open spec fn ages_to(self, later: TableModel) -> bool {
        &&& self.slots.len() <= later.slots.len()
        &&& forall|j: int|
            0 <= j < self.slots.len() ==> self.slots[j].generation <= (
            #[trigger] later.slots[j]).generation
    }

    /// Slot `i` is empty and can be filled again.
    pub open spec fn vacant(self, i: int) -> bool {
        0 <= i < self.slots.len() && self.slots[i].entry is None && self.slots[i].generation
            < u32::MAX
    }

    /// The table can take one more resource.
    pub open spec fn has_room(self) -> bool {
        self.slots.len() < u32::MAX || exists|i: int| self.vacant(i)
    }

    /// The slot that the next resource goes to: the first vacant one, or a new
    /// one at the end.
    pub open spec fn next_slot(self, i: int) -> bool {
        &&& forall|j: int| 0 <= j < i ==> !self.vacant(j)
        &&& self.vacant(i) || (i == self.slots.len() && i < u32::MAX)
    }

    pub open spec fn refs_upto(self, n: int, p: int) -> nat
        decreases n,
    {
        if n <= 0 {
            0
        } else {
            self.refs_upto(n - 1, p) + slot_refs(self.slots[n - 1], p)
        }
    }

    /// How many dependency positions of live resources hold the slot `p`.
    pub open spec fn refs_to(self, p: int) -> nat {
        self.refs_upto(self.slots.len() as int, p)
    }

    /// How many of the first `n` slots hold a resource.
    pub open spec fn live_upto(self, n: int) -> nat
        decreases n,
    {
        if n <= 0 {
            0
        } else {
            self.live_upto(n - 1) + if self.slots[n - 1].entry is Some {
                1nat
            } else {
                0nat
            }
        }
    }

    /// How many resources live in the table.
    pub open spec fn live_count(self) -> nat {
        self.live_upto(self.slots.len() as int)
    }

    /// The dependency `d`, in position `k` of a resource of kind `kind`, is a
    /// live resource of a kind that may stand there.
    pub open spec fn link_valid(self, kind: ResourceKind, k: int, d: Option<u32>) -> bool {
        match d {
            Some(p) => self.live(p as int) && link_ok(kind, k, Some(self.rec(p as int).kind)),
            None => link_ok(kind, k, None),
        }
    }

    pub open spec fn links_valid(self, kind: ResourceKind, deps: Links) -> bool {
        &&& self.link_valid(kind, 0, deps.d0)
        &&& self.link_valid(kind, 1, deps.d1)
        &&& self.link_valid(kind, 2, deps.d2)
        &&& self.link_valid(kind, 3, deps.d3)
    }

    /// The parent `p`, for position `k` of a resource of kind `kind`, names a
    /// live resource of a kind that may stand there.
    pub open spec fn parent_valid(self, kind: ResourceKind, k: int, p: Option<ResourceId>) -> bool {
        match p {
            Some(id) => self.resolves(id) && link_ok(
                kind,
                k,
                Some(self.rec(id.index as int).kind),
            ),
            None => link_ok(kind, k, None),
        }
    }

    /// A resource of kind `kind` can be created under the parents `parents`.
    pub open spec fn adoptable(self, kind: ResourceKind, parents: Parents) -> bool {
        &&& self.parent_valid(kind, 0, parents.first)
        &&& self.parent_valid(kind, 1, parents.second)
        &&& self.parent_valid(kind, 2, parents.third)
        &&& self.parent_valid(kind, 3, parents.fourth)
    }

    /// `id` names a live completion queue that is bound to the channel in
    /// slot `c`.
    pub open spec fn bound(self, id: ResourceId, c: int) -> bool {
        &&& self.resolves_as(id, ResourceKind::CompletionQueue)
        &&& self.rec(id.index as int).deps.d0 is Some
        &&& self.rec(id.index as int).deps.d0->0 as int == c
    }

    /// The registry of a channel holds exactly the live completion queues
    /// that are bound to it. No other resource has a registry.
    pub open spec fn registry_ok(self, i: int) -> bool {
        &&& self.registry(i).finite()
        &&& forall|id: ResourceId|
            #![trigger self.registry(i).contains(id)]
            #![trigger self.bound(id, i)]
            self.registry(i).contains(id) <==> (self.rec(i).kind == ResourceKind::CompChannel
                && self.bound(id, i))
    }

    pub open spec fn slot_ok(self, i: int) -> bool {
        self.live(i) ==> {
            &&& self.slots[i].generation < u32::MAX
            &&& self.rec(i).raw != 0
            &&& self.rec(i).children == self.refs_to(i)
            &&& self.links_valid(self.rec(i).kind, self.rec(i).deps)
            &&& self.registry_ok(i)
        }
    }

    /// Everything that makes a table well formed, but that a resource may
    /// have neither owner nor dependent left.
    pub open spec fn wf_loose(self) -> bool {
        &&& self.slots.len() <= u32::MAX
        &&& forall|i: int| 0 <= i < self.slots.len() ==> #[trigger] self.slot_ok(i)
    }

    /// The resource in slot `i` has neither owner nor dependent left.
    pub open spec fn unowned(self, i: int) -> bool {
        self.live(i) && self.rec(i).handles == 0 && self.rec(i).children == 0
    }

    /// The table is well formed: every live resource has a provider handle,
    /// depends only on live resources of the kinds that its own kind allows,
    /// counts exactly the dependency positions that hold it, and has an owner
    /// or a dependent; and every channel's registry holds exactly the live
    /// completion queues bound to it.
    pub open spec fn wf(self) -> bool {
        &&& self.wf_loose()
        &&& forall|i: int| 0 <= i < self.slots.len() ==> !#[trigger] self.unowned(i)
    }

    pub open spec fn with_rec(self, i: int, rec: Record) -> TableModel {
        TableModel {
            slots: self.slots.update(
                i,
                SlotModel {
                    generation: self.slots[i].generation,
                    entry: Some(EntryModel { rec, registry: self.registry(i) }),
                },
            ),
        }
    }

    pub open spec fn with_registry(self, i: int, registry: Set<ResourceId>) -> TableModel {
        TableModel {
            slots: self.slots.update(
                i,
                SlotModel {
                    generation: self.slots[i].generation,
                    entry: Some(EntryModel { rec: self.rec(i), registry }),
                },
            ),
        }
    }

    /// Slot `j` once a new resource with the record `rec` stands in slot `i`:
    /// slot `i` holds the new resource, in the generation that the slot was
    /// in; every resource that `rec` depends on counts as many dependents more
    /// as `rec` has positions that hold it; and where `rec` is a completion
    /// queue bound to the channel in slot `j`, the new name is in that
    /// channel's registry.
    pub open spec fn placed_slot(self, i: int, rec: Record, j: int) -> SlotModel {
        let generation = if j < self.slots.len() {
            self.slots[j].generation
        } else {
            0u32
        };
        if j == i {
            SlotModel { generation, entry: Some(EntryModel { rec, registry: Set::empty() }) }
        } else {
            match self.slots[j].entry {
                None => self.slots[j],
                Some(e) => SlotModel {
                    generation,
                    entry: Some(
                        EntryModel {
                            rec: Record {
                                children: (e.rec.children + rec.deps.count(j)) as u64,
                                ..e.rec
                            },
                            registry: if rec.kind == ResourceKind::CompletionQueue && hit(
                                rec.deps.d0,
                                j,
                            ) == 1 {
                                e.registry.insert(
                                    ResourceId {
                                        index: i as u32,
                                        generation: if i < self.slots.len() {
                                            self.slots[i].generation
                                        } else {
                                            0u32
                                        },
                                    },
                                )
                            } else {
                                e.registry
                            },
                        },
                    ),
                },
            }
        }
    }

    /// The table once a new resource of kind `kind`, with one owner, stands in
    /// slot `i`, which is a slot of the table or the next one.
    pub open spec fn place(
        self,
        i: int,
        kind: ResourceKind,
        raw: usize,
        user_data: usize,
        deps: Links,
    ) -> TableModel {
        let n = if i == self.slots.len() {
            self.slots.len() + 1
        } else {
            self.slots.len()
        };
        TableModel {
            slots: Seq::new(n, |j: int| self.placed_slot(i, fresh_record(kind, raw, user_data, deps), j)),
        }
    }

    /// Slot `j` once the resource in slot `p` is gone: slot `p` is empty and
    /// in its next generation; every resource that the one in `p` depended on
    /// counts as many dependents less as it had positions that held it; and
    /// where it was a completion queue bound to the channel in slot `j`, its
    /// name has left that channel's registry.
    pub open spec fn detached_slot(self, p: int, j: int) -> SlotModel {
        let gone = self.rec(p);
        if j == p {
            SlotModel { generation: (self.slots[p].generation + 1) as u32, entry: None }
        } else {
            match self.slots[j].entry {
                None => self.slots[j],
                Some(e) => SlotModel {
                    generation: self.slots[j].generation,
                    entry: Some(
                        EntryModel {
                            rec: Record {
                                children: (e.rec.children - gone.deps.count(j)) as u64,
                                ..e.rec
                            },
                            registry: if gone.kind == ResourceKind::CompletionQueue && hit(
                                gone.deps.d0,
                                j,
                            ) == 1 {
                                e.registry.remove(self.id_at(p))
                            } else {
                                e.registry
                            },
                        },
                    ),
                },
            }
        }
    }

    /// The table once the resource in slot `p` is gone.
    pub open spec fn detach(self, p: int) -> TableModel {
        TableModel { slots: Seq::new(self.slots.len(), |j: int| self.detached_slot(p, j)) }
    }

    /// The rank of the resource in slot `i`, counted from one; zero where the
    /// slot is empty.
    pub open spec fn rank_at(self, i: int) -> nat {
        if self.live(i) {
            self.rec(i).kind.rank() + 1
        } else {
            0
        }
    }

    /// Destroys the resource in slot `p` if it has neither owner nor dependent
    /// left, and then, in the order of its dependency positions, each
    /// dependency that is left without owner and dependent in turn. Returns the
    /// table afterwards and the teardown calls that are owed, in the order in
    /// which they are owed: a resource always comes before what it depended
    /// on.
    pub open spec fn reap(self, p: int) -> (TableModel, Seq<Teardown>)
        decreases self.rank_at(p), 1nat,
    {
        if !self.unowned(p) {
            (self, Seq::empty())
        } else {
            let rec = self.rec(p);
            let limit = self.rank_at(p);
            let r0 = self.detach(p).reap_link(rec.deps.d0, limit);
            let r1 = r0.0.reap_link(rec.deps.d1, limit);
            let r2 = r1.0.reap_link(rec.deps.d2, limit);
            let r3 = r2.0.reap_link(rec.deps.d3, limit);
            (r3.0, seq![teardown_of(rec)] + r0.1 + r1.1 + r2.1 + r3.1)
        }
    }

    /// [`Self::reap`] on the dependency `d` of a resource of rank `limit`.
    pub open spec fn reap_link(self, d: Option<u32>, limit: nat) -> (TableModel, Seq<Teardown>)
        decreases limit, 0nat,
    {
        match d {
            Some(q) => if self.rank_at(q as int) < limit {
                self.reap(q as int)
            } else {
                (self, Seq::empty())
            },
            None => (self, Seq::empty()),
        }
    }

    /// `id` names a live resource that has an owner.
    pub open spec fn held(self, id: ResourceId) -> bool {
        self.resolves(id) && self.rec(id.index as int).handles > 0
    }

    /// The table once one more owner holds the resource `id`.
    pub open spec fn retain(self, id: ResourceId) -> TableModel {
        let i = id.index as int;
        self.with_rec(i, Record { handles: (self.rec(i).handles + 1) as u64, ..self.rec(i) })
    }

    /// The table once one owner of the resource `id` has let go, and the
    /// teardown calls that this owes.
    pub open spec fn release(self, id: ResourceId) -> (TableModel, Seq<Teardown>) {
        let i = id.index as int;
        self.with_rec(i, Record { handles: (self.rec(i).handles - 1) as u64, ..self.rec(i) }).reap(
            i,
        )
    }

    /// The table once the completion queue `id` has `cnt` more events to
    /// acknowledge. The count wraps.
    pub open spec fn acknowledge(self, id: ResourceId, cnt: u32) -> TableModel {
        let i = id.index as int;
        self.with_rec(
            i,
            Record { acks: ((self.rec(i).acks + cnt) % 0x1_0000_0000) as u32, ..self.rec(i) },
        )
    }
}

} // verus!
