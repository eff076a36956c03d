//! Address handles.
use crate::device::gid::Gid;
use crate::pd::ProtectionDomain;
use crate::error::Error;
use crate::handle::{creation, failure, owed, releasing, sharing, Handle};
use crate::resource::{Parents, ResourceId, ResourceKind, Teardown};
use crate::table::ResourceTable;
use vstd::prelude::*;

verus! {

/// The global routing header of a destination.
#[derive(Debug, Clone, Copy)]
pub struct GlobalRoute {
    pub dest_gid: Gid,
    pub flow_label: u32,
    pub sgid_index: u8,
    pub hop_limit: u8,
    pub traffic_class: u8,
}

/// How a destination is reached.
#[derive(Debug, Clone, Copy)]
pub struct AddressHandleOptions {
    pub dest_lid: u16,
    pub service_level: u8,
    pub port_num: u8,
    /// The global routing header, where the destination is reached through
    /// one.
    pub global_route: Option<GlobalRoute>,
}

impl Default for AddressHandleOptions {
    /// Every field zero, no global routing header.
    fn default() -> (r: Self)
        ensures
            r == (AddressHandleOptions {
                dest_lid: 0,
                service_level: 0,
                port_num: 0,
                global_route: None,
            }),
    {
        AddressHandleOptions { dest_lid: 0, service_level: 0, port_num: 0, global_route: None }
    }
}

impl AddressHandleOptions {
    /// Sets the local identifier of the destination.
    pub fn dest_lid(&mut self, dest_lid: u16) -> (r: &mut Self)
        ensures
            *r == (AddressHandleOptions { dest_lid, ..*old(self) }),
            *final(self) == *final(r),
    {
        self.dest_lid = dest_lid;
        self
    }

    /// Sets the service level.
    pub fn service_level(&mut self, service_level: u8) -> (r: &mut Self)
        ensures
            *r == (AddressHandleOptions { service_level, ..*old(self) }),
            *final(self) == *final(r),
    {
        self.service_level = service_level;
        self
    }

    /// Sets the local port.
    pub fn port_num(&mut self, port_num: u8) -> (r: &mut Self)
        ensures
            *r == (AddressHandleOptions { port_num, ..*old(self) }),
            *final(self) == *final(r),
    {
        self.port_num = port_num;
        self
    }

    /// Routes through the global routing header `global_route_header`.
    pub fn global_route_header(&mut self, global_route_header: GlobalRoute) -> (r: &mut Self)
        ensures
            *r == (AddressHandleOptions {
                global_route: Some(global_route_header),
                ..*old(self)
            }),
            *final(self) == *final(r),
    {
        self.global_route = Some(global_route_header);
        self
    }

    /// What the provider is told of the global routing header: one where
    /// there is one, zero where there is none.
    pub fn is_global(&self) -> (r: u8)
        ensures
            r == if self.global_route is Some {
                1u8
            } else {
                0u8
            },
    {
        if self.global_route.is_some() {
            1
        } else {
            0
        }
    }
}

/// An owner's hold on an address handle.
pub struct AddressHandle {
    pub handle: Handle,
}

impl AddressHandle {
    /// The options to start from: every field zero, no global routing header.
    pub fn options() -> (r: AddressHandleOptions)
        ensures
            r == (AddressHandleOptions {
                dest_lid: 0,
                service_level: 0,
                port_num: 0,
                global_route: None,
            }),
    {
        AddressHandleOptions::default()
    }

    /// What an address handle depends on: its protection domain.
    pub open spec fn parents(pd: ResourceId) -> Parents {
        Parents { first: Some(pd), second: None, third: None, fourth: None }
    }

    /// Enters the address handle that the provider returned as `raw`, with
    /// the OS error code `errno` current after the call, under `pd`, see
    /// [`creation`]. On success the new address handle has one owner and
    /// keeps `pd` alive.
    pub fn create(table: &mut ResourceTable, pd: &ProtectionDomain, raw: usize, errno: i32) -> (r:
        Result<Self, Error>)
        requires
            old(table).wf(),
        ensures
            final(table).wf(),
            creation(
                old(table)@,
                final(table)@,
                ResourceKind::AddressHandle,
                raw,
                0,
                errno,
                "failed to create address handle",
                Self::parents(pd.handle.id()),
                match r {
                    Ok(x) => Ok(x.handle.id()),
                    Err(e) => Err(e),
                },
            ),
            r is Ok ==> r->Ok_0.handle.ffi_ptr() == raw,
    {
        let parents = Parents { first: Some(pd.handle.id()), second: None, third: None, fourth: None };
        match Handle::create(
            table,
            ResourceKind::AddressHandle,
            raw,
            0,
            errno,
            "failed to create address handle",
            parents,
        ) {
            Ok(handle) => Ok(AddressHandle { handle }),
            Err(e) => Err(e),
        }
    }

    /// The provider's handle of the address handle, as an address.
    pub fn ffi_ptr(&self) -> (r: usize)
        ensures
            r == self.handle.ffi_ptr(),
    {
        self.handle.ffi_ptr()
    }

    /// Makes one more owner of the address handle, see [`sharing`].
    pub fn try_clone(&self, table: &mut ResourceTable) -> (r: Result<Self, Error>)
        requires
            old(table).wf(),
        ensures
            final(table).wf(),
            sharing(old(table)@, final(table)@, self.handle.id(), failure(r)),
            r is Ok ==> r->Ok_0.handle.id() == self.handle.id() && r->Ok_0.handle.ffi_ptr()
                == self.handle.ffi_ptr(),
    {
        match self.handle.try_clone(table) {
            Ok(handle) => Ok(AddressHandle { handle }),
            Err(e) => Err(e),
        }
    }

    /// Gives up this owner's hold on the address handle, see [`releasing`]. The
    /// teardown calls that are returned are owed to the provider, in their
    /// order.
    pub fn release(self, table: &mut ResourceTable) -> (r: Result<Vec<Teardown>, Error>)
        requires
            old(table).wf(),
        ensures
            final(table).wf(),
            releasing(old(table)@, final(table)@, self.handle.id(), owed(r)),
    {
        self.handle.release(table)
    }
}

} // verus!
