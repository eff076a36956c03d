//! Memory regions.
use crate::casts::addr_to_u64;
use crate::pd::ProtectionDomain;
use crate::error::Error;
use crate::handle::{creation, failure, owed, releasing, sharing, Handle};
use crate::resource::{Parents, ResourceId, ResourceKind, Teardown};
use crate::table::ResourceTable;
use vstd::prelude::*;

verus! {

/// What the provider tells about a memory range that it registered.
#[derive(Debug, Clone, Copy, PartialEq, Eq)]
pub struct Registration {
    pub addr: usize,
    pub length: usize,
    pub lkey: u32,
    pub rkey: u32,
}

/// An owner's hold on a registered memory range, with the caller's own
/// `metadata` about it.
///
/// The caller of the provider guarantees that the memory stays valid until
/// the region is destroyed, and that it is initialized before a peer can read
/// it.
pub struct MemoryRegion<T> {
    pub handle: Handle,
    pub registration: Registration,
    pub metadata: T,
}

impl<T> MemoryRegion<T> {
    /// What a memory region depends on: its protection domain.
    pub open spec fn parents(pd: ResourceId) -> Parents {
        Parents { first: Some(pd), second: None, third: None, fourth: None }
    }

    /// Enters the memory region that the provider returned as `raw`, with
    /// the OS error code `errno` current after the call, under `pd`, see
    /// [`creation`]. `registration` is what the provider tells about the
    /// region. On success the new region has one owner and keeps `pd` alive.
    pub fn register(
        table: &mut ResourceTable,
        pd: &ProtectionDomain,
        raw: usize,
        errno: i32,
        registration: Registration,
        metadata: T,
    ) -> (r: Result<Self, Error>)
        requires
            old(table).wf(),
        ensures
            final(table).wf(),
            creation(
                old(table)@,
                final(table)@,
                ResourceKind::MemoryRegion,
                raw,
                0,
                errno,
                "failed to register memory region",
                Self::parents(pd.handle.id()),
                match r {
                    Ok(x) => Ok(x.handle.id()),
                    Err(e) => Err(e),
                },
            ),
            r is Ok ==> r->Ok_0.handle.ffi_ptr() == raw && r->Ok_0.registration == registration
                && r->Ok_0.metadata == metadata,
    {
        let parents = Parents { first: Some(pd.handle.id()), second: None, third: None, fourth: None };
        match Handle::create(
            table,
            ResourceKind::MemoryRegion,
            raw,
            0,
            errno,
            "failed to register memory region",
            parents,
        ) {
            Ok(handle) => Ok(MemoryRegion { handle, registration, metadata }),
            Err(e) => Err(e),
        }
    }

    /// The provider's handle of the region, as an address.
    pub fn ffi_ptr(&self) -> (r: usize)
        ensures
            r == self.handle.ffi_ptr(),
    {
        self.handle.ffi_ptr()
    }

    /// The key for local access.
    pub fn lkey(&self) -> (r: u32)
        ensures
            r == self.registration.lkey,
    {
        self.registration.lkey
    }

    /// The key for access by a peer.
    pub fn rkey(&self) -> (r: u32)
        ensures
            r == self.registration.rkey,
    {
        self.registration.rkey
    }

    /// The address at which the range starts.
    pub fn addr_ptr(&self) -> (r: usize)
        ensures
            r == self.registration.addr,
    {
        self.registration.addr
    }

    /// The address at which the range starts, as a 64-bit number.
    pub fn addr_u64(&self) -> (r: u64)
        ensures
            r == self.registration.addr,
    {
        addr_to_u64(self.registration.addr)
    }

    /// The number of bytes of the range.
    pub fn length(&self) -> (r: usize)
        ensures
            r == self.registration.length,
    {
        self.registration.length
    }

    /// The caller's own data about the region.
    pub fn metadata(&self) -> (r: &T)
        ensures
            *r == self.metadata,
    {
        &self.metadata
    }

    /// Gives up this owner's hold on the region, see [`releasing`]. The
    /// teardown calls that are returned are owed to the provider, in their
    /// order.
    pub fn release(self, table: &mut ResourceTable) -> (r: Result<Vec<Teardown>, Error>)
        requires
            old(table).wf(),
        ensures
            final(table).wf(),
            releasing(old(table)@, final(table)@, self.handle.id(), owed(r)),
    {
        self.handle.release(table)
    }
}

impl<T: Copy> MemoryRegion<T> {
    /// Makes one more owner of the region, see [`sharing`].
    pub fn try_clone(&self, table: &mut ResourceTable) -> (r: Result<Self, Error>)
        requires
            old(table).wf(),
        ensures
            final(table).wf(),
            sharing(old(table)@, final(table)@, self.handle.id(), failure(r)),
            r is Ok ==> r->Ok_0.handle.id() == self.handle.id() && r->Ok_0.handle.ffi_ptr()
                == self.handle.ffi_ptr() && r->Ok_0.registration == self.registration
                && r->Ok_0.metadata == self.metadata,
    {
        match self.handle.try_clone(table) {
            Ok(handle) => Ok(
                MemoryRegion { handle, registration: self.registration, metadata: self.metadata },
            ),
            Err(e) => Err(e),
        }
    }
}

/// What may be done with registered memory.
#[derive(Debug, Clone, Copy, PartialEq, Eq, Structural)]
pub struct AccessFlags {
    pub bits: u32,
}

/// The bit of [`AccessFlags::local_write`].
pub const ACCESS_LOCAL_WRITE: u32 = 0x1;

/// The bit of [`AccessFlags::remote_write`].
pub const ACCESS_REMOTE_WRITE: u32 = 0x2;

/// The bit of [`AccessFlags::remote_read`].
pub const ACCESS_REMOTE_READ: u32 = 0x4;

/// The bit of [`AccessFlags::remote_atomic`].
pub const ACCESS_REMOTE_ATOMIC: u32 = 0x8;

/// The bit of [`AccessFlags::mw_bind`].
pub const ACCESS_MW_BIND: u32 = 0x10;

/// The bit of [`AccessFlags::zero_based`].
pub const ACCESS_ZERO_BASED: u32 = 0x20;

/// The bit of [`AccessFlags::on_demand`].
pub const ACCESS_ON_DEMAND: u32 = 0x40;

/// The bit of [`AccessFlags::hugetlb`].
pub const ACCESS_HUGETLB: u32 = 0x80;

/// The bit of [`AccessFlags::relaxed_ordering`].
pub const ACCESS_RELAXED_ORDERING: u32 = 0x100000;

/// Every bit that stands for a flag.
pub const ACCESS_ALL: u32 = 0x1000ff;

impl AccessFlags {
    /// The memory may be written locally.
    pub fn local_write() -> (r: Self)
        ensures
            r.bits == ACCESS_LOCAL_WRITE,
    {
        AccessFlags { bits: ACCESS_LOCAL_WRITE }
    }

    /// The memory may be written by a peer.
    pub fn remote_write() -> (r: Self)
        ensures
            r.bits == ACCESS_REMOTE_WRITE,
    {
        AccessFlags { bits: ACCESS_REMOTE_WRITE }
    }

    /// The memory may be read by a peer.
    pub fn remote_read() -> (r: Self)
        ensures
            r.bits == ACCESS_REMOTE_READ,
    {
        AccessFlags { bits: ACCESS_REMOTE_READ }
    }

    /// A peer may run atomic operations on the memory.
    pub fn remote_atomic() -> (r: Self)
        ensures
            r.bits == ACCESS_REMOTE_ATOMIC,
    {
        AccessFlags { bits: ACCESS_REMOTE_ATOMIC }
    }

    /// Memory windows may be bound to the memory.
    pub fn mw_bind() -> (r: Self)
        ensures
            r.bits == ACCESS_MW_BIND,
    {
        AccessFlags { bits: ACCESS_MW_BIND }
    }

    /// Addresses in the region count from zero.
    pub fn zero_based() -> (r: Self)
        ensures
            r.bits == ACCESS_ZERO_BASED,
    {
        AccessFlags { bits: ACCESS_ZERO_BASED }
    }

    /// The region is paged in on demand.
    pub fn on_demand() -> (r: Self)
        ensures
            r.bits == ACCESS_ON_DEMAND,
    {
        AccessFlags { bits: ACCESS_ON_DEMAND }
    }

    /// The region is backed by huge pages.
    pub fn hugetlb() -> (r: Self)
        ensures
            r.bits == ACCESS_HUGETLB,
    {
        AccessFlags { bits: ACCESS_HUGETLB }
    }

    /// Writes to the region may be reordered.
    pub fn relaxed_ordering() -> (r: Self)
        ensures
            r.bits == ACCESS_RELAXED_ORDERING,
    {
        AccessFlags { bits: ACCESS_RELAXED_ORDERING }
    }

    /// No flag.
    pub fn empty() -> (r: Self)
        ensures
            r.bits == 0,
    {
        AccessFlags { bits: 0 }
    }

    /// Every flag.
    pub fn all() -> (r: Self)
        ensures
            r.bits == ACCESS_ALL,
    {
        AccessFlags { bits: ACCESS_ALL }
    }

    /// The flags as bits.
    pub fn bits(&self) -> (r: u32)
        ensures
            r == self.bits,
    {
        self.bits
    }

    /// The flags as the provider takes them.
    pub fn to_c_uint(&self) -> (r: u32)
        ensures
            r == self.bits,
    {
        self.bits
    }

    /// The flags that `bits` stands for, if every bit of it stands for a flag.
    pub fn from_bits(bits: u32) -> (r: Option<Self>)
        ensures
            r == if bits & !ACCESS_ALL == 0 {
                Some(AccessFlags { bits })
            } else {
                None
            },
    {
        if bits & !ACCESS_ALL == 0 {
            Some(AccessFlags { bits })
        } else {
            None
        }
    }

    /// The flags that `bits` stands for; bits that stand for no flag are
    /// dropped.
    pub fn from_bits_truncate(bits: u32) -> (r: Self)
        ensures
            r.bits == bits & ACCESS_ALL,
    {
        AccessFlags { bits: bits & ACCESS_ALL }
    }

    /// The flags of `self` together with those of `other`.
    pub fn union(self, other: Self) -> (r: Self)
        ensures
            r.bits == self.bits | other.bits,
    {
        AccessFlags { bits: self.bits | other.bits }
    }

    /// Whether every flag of `other` is a flag of `self`.
    pub fn contains(&self, other: Self) -> (r: bool)
        ensures
            r == (self.bits & other.bits == other.bits),
    {
        self.bits & other.bits == other.bits
    }

    /// Whether there is no flag.
    pub fn is_empty(&self) -> (r: bool)
        ensures
            r == (self.bits == 0),
    {
        self.bits == 0
    }
}

/// A union holds exactly the flags of its two sides, and reading flags from
/// their own bits gives them back.
pub proof fn lemma_access_union(a: u32, b: u32)
    ensures
        (a | b) & a == a,
        (a | b) & b == b,
        a & !ACCESS_ALL == 0 && b & !ACCESS_ALL == 0 ==> (a | b) & !ACCESS_ALL == 0,
        (a & ACCESS_ALL) & !ACCESS_ALL == 0,
{
    assert((a | b) & a == a) by (bit_vector);
    assert((a | b) & b == b) by (bit_vector);
    assert(a & !ACCESS_ALL == 0 && b & !ACCESS_ALL == 0 ==> (a | b) & !ACCESS_ALL == 0) by (bit_vector);
    assert((a & ACCESS_ALL) & !ACCESS_ALL == 0) by (bit_vector);
}

} // verus!
