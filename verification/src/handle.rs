//! An owner's hold on a resource of the table.
use crate::error::{create_resource, Error};
use crate::model::TableModel;
use crate::resource::{Parents, ResourceId, ResourceKind, Teardown};
use crate::table::ResourceTable;
use vstd::prelude::*;

verus! {

/// One owner's hold on a resource. It is made when the resource is created or
/// when an owner shares its hold, and it is used up when the owner lets go:
/// as long as it exists, the table counts it and the resource lives.
pub struct Handle {
    id: ResourceId,
    raw: usize,
}

/// A resource that is named and not owned: what a set of options keeps of a
/// resource that the new resource is to depend on.
#[derive(Clone, Copy, Debug, PartialEq, Eq)]
pub struct Borrowed {
    pub id: ResourceId,
    pub raw: usize,
}

/// The failure that a creation under `parents` meets in the table `t`, when
/// it meets one: the provider's null handle comes first, then a parent that
/// is gone, then a full table.
pub open spec fn creation_error(
    t: TableModel,
    kind: ResourceKind,
    raw: usize,
    errno: i32,
    label: &'static str,
    parents: Parents,
) -> Error {
    if raw == 0 {
        Error::Creation { code: errno, label }
    } else if !t.adoptable(kind, parents) {
        Error::Released
    } else {
        Error::Exhausted
    }
}

/// What creating a resource of kind `kind` does. It succeeds exactly when the
/// provider returned a handle, every parent names a live resource of a kind
/// that may stand in its position, and the table has room. Then `after` is
/// `before` with the new resource in the next slot, and the outcome is the
/// name of that slot. Otherwise `after` is `before` and the outcome is the
/// failure given by [`creation_error`].
pub open spec fn creation(
    before: TableModel,
    after: TableModel,
    kind: ResourceKind,
    raw: usize,
    user_data: usize,
    errno: i32,
    label: &'static str,
    parents: Parents,
    outcome: Result<ResourceId, Error>,
) -> bool {
    match outcome {
        Ok(id) => {
            &&& raw != 0
            &&& before.adoptable(kind, parents)
            &&& before.has_room()
            &&& before.next_slot(id.index as int)
            &&& after == before.place(id.index as int, kind, raw, user_data, parents.links())
            &&& after.id_at(id.index as int) == id
            &&& after.resolves_as(id, kind)
        },
        Err(e) => {
            &&& raw == 0 || !before.adoptable(kind, parents) || !before.has_room()
            &&& after == before
            &&& e == creation_error(before, kind, raw, errno, label, parents)
        },
    }
}

/// The name that a created handle carries, or the failure.
pub open spec fn named(r: Result<Handle, Error>) -> Result<ResourceId, Error> {
    match r {
        Ok(h) => Ok(h.id()),
        Err(e) => Err(e),
    }
}

/// What sharing a hold on `id` does. It succeeds exactly when `id` names a
/// live resource whose owner count can grow; then `after` is `before` with
/// one owner more. Otherwise `after` is `before`, and the failure is
/// [`Error::Released`] where `id` names no live resource and
/// [`Error::Exhausted`] where the count cannot grow.
pub open spec fn sharing(before: TableModel, after: TableModel, id: ResourceId, failure: Option<Error>) -> bool {
    match failure {
        None => {
            &&& before.resolves(id)
            &&& before.rec(id.index as int).handles < u64::MAX
            &&& after == before.retain(id)
        },
        Some(e) => {
            &&& after == before
            &&& e == if before.resolves(id) {
                Error::Exhausted
            } else {
                Error::Released
            }
            &&& before.resolves(id) ==> before.rec(id.index as int).handles == u64::MAX
        },
    }
}

/// What letting go of a hold on `id` does. It succeeds exactly when `id`
/// names a live resource that has an owner; then `after` and the teardown
/// calls owed are those of [`TableModel::release`]. Otherwise `after` is
/// `before` and the failure is [`Error::Released`].
pub open spec fn releasing(
    before: TableModel,
    after: TableModel,
    id: ResourceId,
    outcome: Result<Seq<Teardown>, Error>,
) -> bool {
    match outcome {
        Ok(owed) => {
            &&& before.held(id)
            &&& after == before.release(id).0
            &&& owed == before.release(id).1
        },
        Err(e) => {
            &&& !before.held(id)
            &&& after == before
            &&& e == Error::Released
        },
    }
}

/// The teardown calls of a release, or the failure.
pub open spec fn owed(r: Result<Vec<Teardown>, Error>) -> Result<Seq<Teardown>, Error> {
    match r {
        Ok(v) => Ok(v@),
        Err(e) => Err(e),
    }
}

/// The failure of a sharing, if it failed.
pub open spec fn failure<T>(r: Result<T, Error>) -> Option<Error> {
    match r {
        Ok(_) => None,
        Err(e) => Some(e),
    }
}

impl Handle {
    /// The name of the resource.
    pub closed spec fn spec_id(&self) -> ResourceId {
        self.id
    }

    /// The provider's handle of the resource.
    pub closed spec fn spec_ffi_ptr(&self) -> usize {
        self.raw
    }

    /// The name of the resource.
    #[verifier::when_used_as_spec(spec_id)]
    pub fn id(&self) -> (r: ResourceId)
        ensures
            r == self.id(),
    {
        self.id
    }

    /// The provider's handle of the resource, as an address.
    #[verifier::when_used_as_spec(spec_ffi_ptr)]
    pub fn ffi_ptr(&self) -> (r: usize)
        ensures
            r == self.ffi_ptr(),
    {
        self.raw
    }

    /// The resource, named and not owned.
    pub fn borrow(&self) -> (b: Borrowed)
        ensures
            b.id == self.id(),
            b.raw == self.ffi_ptr(),
    {
        Borrowed { id: self.id, raw: self.raw }
    }

    /// Whether two holds are on the same resource.
    pub fn same(&self, other: &Handle) -> (b: bool)
        ensures
            b == (self.id() == other.id()),
    {
        self.id == other.id
    }

    /// Whether the resource is live in `table`.
    pub fn is_live(&self, table: &ResourceTable) -> (b: bool)
        ensures
            b == table@.resolves(self.id()),
    {
        table.resolves(self.id)
    }

    /// Enters the resource that the provider returned as `raw` into the table,
    /// under `parents`, and returns the first owner's hold on it.
    pub(crate) fn create(
        table: &mut ResourceTable,
        kind: ResourceKind,
        raw: usize,
        user_data: usize,
        errno: i32,
        label: &'static str,
        parents: Parents,
    ) -> (r: Result<Handle, Error>)
        requires
            old(table).wf(),
        ensures
            final(table).wf(),
            creation(
                old(table)@,
                final(table)@,
                kind,
                raw,
                user_data,
                errno,
                label,
                parents,
                named(r),
            ),
            r is Ok ==> r->Ok_0.ffi_ptr() == raw,
    {
        let raw = match create_resource(raw, errno, label) {
            Ok(raw) => raw,
            Err(e) => {
                return Err(e);
            },
        };
        match table.adopt(kind, raw, user_data, parents) {
            Ok(id) => {
                assert(old(table)@.vacant(id.index as int) || old(table)@.slots.len() < u32::MAX);
                Ok(Handle { id, raw })
            },
            Err(e) => Err(e),
        }
    }

    /// Makes one more hold on the resource.
    pub(crate) fn try_clone(&self, table: &mut ResourceTable) -> (r: Result<Handle, Error>)
        requires
            old(table).wf(),
        ensures
            final(table).wf(),
            sharing(old(table)@, final(table)@, self.id(), failure(r)),
            r is Ok ==> r->Ok_0.id() == self.id() && r->Ok_0.ffi_ptr() == self.ffi_ptr(),
    {
        match table.retain(self.id) {
            Ok(()) => Ok(Handle { id: self.id, raw: self.raw }),
            Err(e) => Err(e),
        }
    }

    /// Makes a hold on the resource `id`, whose provider handle is looked up.
    pub(crate) fn upgrade(table: &mut ResourceTable, id: ResourceId) -> (r: Result<Handle, Error>)
        requires
            old(table).wf(),
        ensures
            final(table).wf(),
            sharing(old(table)@, final(table)@, id, failure(r)),
            r is Ok ==> r->Ok_0.id() == id && r->Ok_0.ffi_ptr() == old(table)@.rec(
                id.index as int,
            ).raw,
    {
        let raw = match table.record(id) {
            Some(rec) => rec.raw,
            None => {
                return Err(Error::Released);
            },
        };
        match table.retain(id) {
            Ok(()) => Ok(Handle { id, raw }),
            Err(e) => Err(e),
        }
    }

    /// Gives the hold up.
    pub(crate) fn release(self, table: &mut ResourceTable) -> (r: Result<Vec<Teardown>, Error>)
        requires
            old(table).wf(),
        ensures
            final(table).wf(),
            releasing(old(table)@, final(table)@, self.id(), owed(r)),
    {
        table.release(self.id)
    }
}

} // verus!
