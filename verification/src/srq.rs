//! Shared receive queues.
use crate::pd::ProtectionDomain;
use crate::error::Error;
use crate::handle::{creation, failure, owed, releasing, sharing, Handle};
use crate::resource::{Parents, ResourceId, ResourceKind, Teardown};
use crate::table::ResourceTable;
use vstd::prelude::*;

verus! {

/// An owner's hold on a shared receive queue.
pub struct SharedReceiveQueue {
    pub handle: Handle,
}

impl SharedReceiveQueue {
    /// What a shared receive queue depends on: its protection domain.
    pub open spec fn parents(pd: ResourceId) -> Parents {
        Parents { first: Some(pd), second: None, third: None, fourth: None }
    }

    /// Enters the shared receive queue that the provider returned as `raw`, with the OS
    /// error code `errno` current after the call, under `pd`, see
    /// [`creation`]. On success the new shared receive queue has one owner
    /// and keeps `pd` alive.
    pub fn create(
        table: &mut ResourceTable,
        pd: &ProtectionDomain,
        raw: usize,
        errno: i32,
    ) -> (r: Result<Self, Error>)
        requires
            old(table).wf(),
        ensures
            final(table).wf(),
            creation(
                old(table)@,
                final(table)@,
                ResourceKind::SharedReceiveQueue,
                raw,
                0,
                errno,
                "failed to create shared receive queue",
                Self::parents(pd.handle.id()),
                match r {
                    Ok(x) => Ok(x.handle.id()),
                    Err(e) => Err(e),
                },
            ),
            r is Ok ==> r->Ok_0.handle.ffi_ptr() == raw,
    {
        let parents = Parents { first: Some(pd.handle.id()), second: None, third: None, fourth: None };
        match Handle::create(
            table,
            ResourceKind::SharedReceiveQueue,
            raw,
            0,
            errno,
            "failed to create shared receive queue",
            parents,
        ) {
            Ok(handle) => Ok(SharedReceiveQueue { handle }),
            Err(e) => Err(e),
        }
    }

    /// The provider's handle of the shared receive queue, as an address.
    pub fn ffi_ptr(&self) -> (r: usize)
        ensures
            r == self.handle.ffi_ptr(),
    {
        self.handle.ffi_ptr()
    }

    /// Makes one more owner of the shared receive queue, see [`sharing`].
    pub fn try_clone(&self, table: &mut ResourceTable) -> (r: Result<Self, Error>)
        requires
            old(table).wf(),
        ensures
            final(table).wf(),
            sharing(old(table)@, final(table)@, self.handle.id(), failure(r)),
            r is Ok ==> r->Ok_0.handle.id() == self.handle.id() && r->Ok_0.handle.ffi_ptr()
                == self.handle.ffi_ptr(),
    {
        match self.handle.try_clone(table) {
            Ok(handle) => Ok(SharedReceiveQueue { handle }),
            Err(e) => Err(e),
        }
    }

    /// Gives up this owner's hold on the shared receive queue, see [`releasing`]. The
    /// teardown calls that are returned are owed to the provider, in their
    /// order.
    pub fn release(self, table: &mut ResourceTable) -> (r: Result<Vec<Teardown>, Error>)
        requires
            old(table).wf(),
        ensures
            final(table).wf(),
            releasing(old(table)@, final(table)@, self.handle.id(), owed(r)),
    {
        self.handle.release(table)
    }
}

} // verus!
