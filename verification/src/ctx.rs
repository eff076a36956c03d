//! Device contexts.
use crate::error::Error;
use crate::handle::{creation, failure, owed, releasing, sharing, Handle};
use crate::resource::{Parents, ResourceId, ResourceKind, Teardown};
use crate::table::ResourceTable;
use vstd::prelude::*;

verus! {

/// An owner's hold on the context of an opened device.
pub struct Context {
    pub handle: Handle,
}

impl Context {
    /// A context depends on nothing.
    pub open spec fn parents() -> Parents {
        Parents { first: None, second: None, third: None, fourth: None }
    }

    /// Enters the context that the provider returned as `raw` when it was
    /// asked to open a device, with the OS error code `errno` current after
    /// the call, see [`creation`]. On success the new context has one owner.
    pub fn open(table: &mut ResourceTable, raw: usize, errno: i32) -> (r: Result<Self, Error>)
        requires
            old(table).wf(),
        ensures
            final(table).wf(),
            creation(
                old(table)@,
                final(table)@,
                ResourceKind::Context,
                raw,
                0,
                errno,
                "failed to open device",
                Self::parents(),
                match r {
                    Ok(x) => Ok(x.handle.id()),
                    Err(e) => Err(e),
                },
            ),
            r is Ok ==> r->Ok_0.handle.ffi_ptr() == raw,
    {
        let parents = Parents { first: None, second: None, third: None, fourth: None };
        match Handle::create(
            table,
            ResourceKind::Context,
            raw,
            0,
            errno,
            "failed to open device",
            parents,
        ) {
            Ok(handle) => Ok(Context { handle }),
            Err(e) => Err(e),
        }
    }

    /// The provider's handle of the context, as an address.
    pub fn ffi_ptr(&self) -> (r: usize)
        ensures
            r == self.handle.ffi_ptr(),
    {
        self.handle.ffi_ptr()
    }

    /// Makes one more owner of the context, see [`sharing`].
    pub fn try_clone(&self, table: &mut ResourceTable) -> (r: Result<Self, Error>)
        requires
            old(table).wf(),
        ensures
            final(table).wf(),
            sharing(old(table)@, final(table)@, self.handle.id(), failure(r)),
            r is Ok ==> r->Ok_0.handle.id() == self.handle.id() && r->Ok_0.handle.ffi_ptr()
                == self.handle.ffi_ptr(),
    {
        match self.handle.try_clone(table) {
            Ok(handle) => Ok(Context { handle }),
            Err(e) => Err(e),
        }
    }

    /// Gives up this owner's hold on the context, see [`releasing`]. The
    /// teardown calls that are returned are owed to the provider, in their
    /// order.
    pub fn release(self, table: &mut ResourceTable) -> (r: Result<Vec<Teardown>, Error>)
        requires
            old(table).wf(),
        ensures
            final(table).wf(),
            releasing(old(table)@, final(table)@, self.handle.id(), owed(r)),
    {
        self.handle.release(table)
    }
}

} // verus!
