//! Memory windows.
use crate::pd::ProtectionDomain;
use vstd::std_specs::convert::TryFromSpecImpl;
use crate::error::Error;
use crate::handle::{creation, failure, owed, releasing, sharing, Handle};
use crate::resource::{Parents, ResourceId, ResourceKind, Teardown};
use crate::table::ResourceTable;
use vstd::prelude::*;

verus! {

/// An owner's hold on a memory window.
pub struct MemoryWindow {
    pub handle: Handle,
    pub mw_type: MemoryWindowType,
}

impl MemoryWindow {
    /// What a memory window depends on: its protection domain.
    pub open spec fn parents(pd: ResourceId) -> Parents {
        Parents { first: Some(pd), second: None, third: None, fourth: None }
    }

    /// Enters the memory window that the provider returned as `raw`, with the OS
    /// error code `errno` current after the call, under `pd`, see
    /// [`creation`]. `mw_type` is the type that the provider was asked for. On success the new memory window has one owner
    /// and keeps `pd` alive.
    pub fn allocate(
        table: &mut ResourceTable,
        pd: &ProtectionDomain, mw_type: MemoryWindowType,
        raw: usize,
        errno: i32,
    ) -> (r: Result<Self, Error>)
        requires
            old(table).wf(),
        ensures
            final(table).wf(),
            creation(
                old(table)@,
                final(table)@,
                ResourceKind::MemoryWindow,
                raw,
                0,
                errno,
                "failed to allocate memory window",
                Self::parents(pd.handle.id()),
                match r {
                    Ok(x) => Ok(x.handle.id()),
                    Err(e) => Err(e),
                },
            ),
            r is Ok ==> r->Ok_0.handle.ffi_ptr() == raw && r->Ok_0.mw_type == mw_type,
    {
        let parents = Parents { first: Some(pd.handle.id()), second: None, third: None, fourth: None };
        match Handle::create(
            table,
            ResourceKind::MemoryWindow,
            raw,
            0,
            errno,
            "failed to allocate memory window",
            parents,
        ) {
            Ok(handle) => Ok(MemoryWindow { handle, mw_type }),
            Err(e) => Err(e),
        }
    }

    /// The provider's handle of the memory window, as an address.
    pub fn ffi_ptr(&self) -> (r: usize)
        ensures
            r == self.handle.ffi_ptr(),
    {
        self.handle.ffi_ptr()
    }

    /// Makes one more owner of the memory window, see [`sharing`].
    pub fn try_clone(&self, table: &mut ResourceTable) -> (r: Result<Self, Error>)
        requires
            old(table).wf(),
        ensures
            final(table).wf(),
            sharing(old(table)@, final(table)@, self.handle.id(), failure(r)),
            r is Ok ==> r->Ok_0.handle.id() == self.handle.id() && r->Ok_0.handle.ffi_ptr()
                == self.handle.ffi_ptr()
                && r->Ok_0.mw_type == self.mw_type,
    {
        match self.handle.try_clone(table) {
            Ok(handle) => Ok(MemoryWindow { handle, mw_type: self.mw_type }),
            Err(e) => Err(e),
        }
    }

    /// Gives up this owner's hold on the memory window, see [`releasing`]. The
    /// teardown calls that are returned are owed to the provider, in their
    /// order.
    pub fn release(self, table: &mut ResourceTable) -> (r: Result<Vec<Teardown>, Error>)
        requires
            old(table).wf(),
        ensures
            final(table).wf(),
            releasing(old(table)@, final(table)@, self.handle.id(), owed(r)),
    {
        self.handle.release(table)
    }
}

/// The type of a memory window.
#[derive(Debug, Clone, Copy, PartialEq, Eq, Structural)]
pub enum MemoryWindowType {
    /// Bound through its protection domain.
    Type1,
    /// Bound through a queue pair.
    Type2,
}

impl MemoryWindowType {
    /// The wire value of the memory window type.
    pub open spec fn raw(self) -> u32 {
        match self {
            MemoryWindowType::Type1 => 1,
            MemoryWindowType::Type2 => 2,
        }
    }

    /// The memory window type that the wire value `value` stands for, if it stands for one.
    pub open spec fn decode(value: u32) -> Option<MemoryWindowType> {
        if value == 1 {
            Some(MemoryWindowType::Type1)
        } else if value == 2 {
            Some(MemoryWindowType::Type2)
        } else {
            None
        }
    }

    /// The wire value of the memory window type.
    pub fn to_c_uint(self) -> (r: u32)
        ensures
            r == self.raw(),
            MemoryWindowType::decode(r) == Some(self),
    {
        match self {
            MemoryWindowType::Type1 => 1,
            MemoryWindowType::Type2 => 2,
        }
    }
}

impl TryFrom<u32> for MemoryWindowType {
    type Error = ();

    /// Reads a wire value: the memory window type that it stands for, or a conversion
    /// failure where it stands for none.
    fn try_from(value: u32) -> (r: Result<Self, ()>) {
        match value {
            1 => Ok(MemoryWindowType::Type1),
            2 => Ok(MemoryWindowType::Type2),
            _ => Err(()),
        }
    }
}

impl TryFromSpecImpl<u32> for MemoryWindowType {
    open spec fn obeys_try_from_spec() -> bool {
        true
    }

    open spec fn try_from_spec(value: u32) -> Result<Self, ()> {
        match MemoryWindowType::decode(value) {
            Some(x) => Ok(x),
            None => Err(()),
        }
    }
}

/// Reading the wire value of a memory window type gives that memory window type back, and a wire value
/// that reads as a memory window type is the wire value of what it reads as: no other
/// value is accepted.
pub proof fn lemma_window_type_round_trip(x: MemoryWindowType, value: u32)
    ensures
        MemoryWindowType::decode(x.raw()) == Some(x),
        MemoryWindowType::decode(value) is Some ==> MemoryWindowType::decode(value)->0.raw() == value,
{
}
} // verus!
