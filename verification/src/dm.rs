//! Device memory.
use crate::ctx::Context;
use crate::error::Error;
use crate::handle::{creation, failure, owed, releasing, sharing, Handle};
use crate::resource::{Parents, ResourceId, ResourceKind, Teardown};
use crate::table::ResourceTable;
use vstd::prelude::*;

verus! {

/// What device memory is allocated with.
#[derive(Debug, Clone, Copy, PartialEq, Eq)]
pub struct DeviceMemoryOptions {
    pub length: usize,
    pub log_align_req: u32,
    pub comp_mask: u32,
}

impl Default for DeviceMemoryOptions {
    /// Every field zero.
    fn default() -> (r: Self)
        ensures
            r == (DeviceMemoryOptions { length: 0, log_align_req: 0, comp_mask: 0 }),
    {
        DeviceMemoryOptions { length: 0, log_align_req: 0, comp_mask: 0 }
    }
}

/// An owner's hold on a device memory.
pub struct DeviceMemory {
    pub handle: Handle,
    pub options: DeviceMemoryOptions,
}

impl DeviceMemory {
    /// What a device memory depends on: its context.
    pub open spec fn parents(ctx: ResourceId) -> Parents {
        Parents { first: Some(ctx), second: None, third: None, fourth: None }
    }

    /// Enters the device memory that the provider returned as `raw`, with the OS
    /// error code `errno` current after the call, under `ctx`, see
    /// [`creation`]. `options` is what the provider was asked with. On success the new device memory has one owner
    /// and keeps `ctx` alive.
    pub fn allocate(
        table: &mut ResourceTable,
        ctx: &Context, options: DeviceMemoryOptions,
        raw: usize,
        errno: i32,
    ) -> (r: Result<Self, Error>)
        requires
            old(table).wf(),
        ensures
            final(table).wf(),
            creation(
                old(table)@,
                final(table)@,
                ResourceKind::DeviceMemory,
                raw,
                0,
                errno,
                "failed to allocate device memory",
                Self::parents(ctx.handle.id()),
                match r {
                    Ok(x) => Ok(x.handle.id()),
                    Err(e) => Err(e),
                },
            ),
            r is Ok ==> r->Ok_0.handle.ffi_ptr() == raw && r->Ok_0.options == options,
    {
        let parents = Parents { first: Some(ctx.handle.id()), second: None, third: None, fourth: None };
        match Handle::create(
            table,
            ResourceKind::DeviceMemory,
            raw,
            0,
            errno,
            "failed to allocate device memory",
            parents,
        ) {
            Ok(handle) => Ok(DeviceMemory { handle, options }),
            Err(e) => Err(e),
        }
    }

    /// The provider's handle of the device memory, as an address.
    pub fn ffi_ptr(&self) -> (r: usize)
        ensures
            r == self.handle.ffi_ptr(),
    {
        self.handle.ffi_ptr()
    }

    /// Makes one more owner of the device memory, see [`sharing`].
    pub fn try_clone(&self, table: &mut ResourceTable) -> (r: Result<Self, Error>)
        requires
            old(table).wf(),
        ensures
            final(table).wf(),
            sharing(old(table)@, final(table)@, self.handle.id(), failure(r)),
            r is Ok ==> r->Ok_0.handle.id() == self.handle.id() && r->Ok_0.handle.ffi_ptr()
                == self.handle.ffi_ptr()
                && r->Ok_0.options == self.options,
    {
        match self.handle.try_clone(table) {
            Ok(handle) => Ok(DeviceMemory { handle, options: self.options }),
            Err(e) => Err(e),
        }
    }

    /// Gives up this owner's hold on the device memory, see [`releasing`]. The
    /// teardown calls that are returned are owed to the provider, in their
    /// order.
    pub fn release(self, table: &mut ResourceTable) -> (r: Result<Vec<Teardown>, Error>)
        requires
            old(table).wf(),
        ensures
            final(table).wf(),
            releasing(old(table)@, final(table)@, self.handle.id(), owed(r)),
    {
        self.handle.release(table)
    }
}

impl DeviceMemory {
    /// The options to start from: every field zero.
    pub fn options() -> (r: DeviceMemoryOptions)
        ensures
            r == (DeviceMemoryOptions { length: 0, log_align_req: 0, comp_mask: 0 }),
    {
        DeviceMemoryOptions::default()
    }
}

} // verus!
