//! Protection domains.
use crate::ctx::Context;
use crate::error::Error;
use crate::handle::{creation, failure, owed, releasing, sharing, Handle};
use crate::resource::{Parents, ResourceId, ResourceKind, Teardown};
use crate::table::ResourceTable;
use vstd::prelude::*;

verus! {

/// An owner's hold on a protection domain.
pub struct ProtectionDomain {
    pub handle: Handle,
}

impl ProtectionDomain {
    /// What a protection domain depends on: its context.
    pub open spec fn parents(ctx: ResourceId) -> Parents {
        Parents { first: Some(ctx), second: None, third: None, fourth: None }
    }

    /// Enters the protection domain that the provider returned as `raw`, with the OS
    /// error code `errno` current after the call, under `ctx`, see
    /// [`creation`]. On success the new protection domain has one owner
    /// and keeps `ctx` alive.
    pub fn allocate(
        table: &mut ResourceTable,
        ctx: &Context,
        raw: usize,
        errno: i32,
    ) -> (r: Result<Self, Error>)
        requires
            old(table).wf(),
        ensures
            final(table).wf(),
            creation(
                old(table)@,
                final(table)@,
                ResourceKind::ProtectionDomain,
                raw,
                0,
                errno,
                "failed to allocate protection domain",
                Self::parents(ctx.handle.id()),
                match r {
                    Ok(x) => Ok(x.handle.id()),
                    Err(e) => Err(e),
                },
            ),
            r is Ok ==> r->Ok_0.handle.ffi_ptr() == raw,
    {
        let parents = Parents { first: Some(ctx.handle.id()), second: None, third: None, fourth: None };
        match Handle::create(
            table,
            ResourceKind::ProtectionDomain,
            raw,
            0,
            errno,
            "failed to allocate protection domain",
            parents,
        ) {
            Ok(handle) => Ok(ProtectionDomain { handle }),
            Err(e) => Err(e),
        }
    }

    /// The provider's handle of the protection domain, as an address.
    pub fn ffi_ptr(&self) -> (r: usize)
        ensures
            r == self.handle.ffi_ptr(),
    {
        self.handle.ffi_ptr()
    }

    /// Makes one more owner of the protection domain, see [`sharing`].
    pub fn try_clone(&self, table: &mut ResourceTable) -> (r: Result<Self, Error>)
        requires
            old(table).wf(),
        ensures
            final(table).wf(),
            sharing(old(table)@, final(table)@, self.handle.id(), failure(r)),
            r is Ok ==> r->Ok_0.handle.id() == self.handle.id() && r->Ok_0.handle.ffi_ptr()
                == self.handle.ffi_ptr(),
    {
        match self.handle.try_clone(table) {
            Ok(handle) => Ok(ProtectionDomain { handle }),
            Err(e) => Err(e),
        }
    }

    /// Gives up this owner's hold on the protection domain, see [`releasing`]. The
    /// teardown calls that are returned are owed to the provider, in their
    /// order.
    pub fn release(self, table: &mut ResourceTable) -> (r: Result<Vec<Teardown>, Error>)
        requires
            old(table).wf(),
        ensures
            final(table).wf(),
            releasing(old(table)@, final(table)@, self.handle.id(), owed(r)),
    {
        self.handle.release(table)
    }
}

} // verus!
