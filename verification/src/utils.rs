//! Conversions between resource names and the addresses under which the
//! provider carries them.
use crate::resource::ResourceId;
use vstd::prelude::*;

verus! {

/// The address that stands for the name `id`: the generation in the upper
/// half, the slot in the lower half.
pub open spec fn addr_of(id: ResourceId) -> u64 {
    (id.generation as u64 * 0x1_0000_0000 + id.index as u64) as u64
}

/// The name that the address `addr` stands for.
pub open spec fn name_at(addr: u64) -> ResourceId {
    ResourceId { index: (addr % 0x1_0000_0000) as u32, generation: (addr / 0x1_0000_0000) as u32 }
}

/// The address that stands for the name `p`. The provider keeps it as the
/// opaque context of a completion queue and hands it back with each event of
/// that queue.
pub fn ptr_to_addr(p: ResourceId) -> (addr: u64)
    ensures
        addr == addr_of(p),
        name_at(addr) == p,
{
    (p.generation as u64) * 0x1_0000_0000 + p.index as u64
}

/// The name that the address `val` stands for.
pub fn ptr_from_addr(val: u64) -> (p: ResourceId)
    ensures
        p == name_at(val),
        addr_of(p) == val,
{
    ResourceId {
        index: (val % 0x1_0000_0000) as u32,
        generation: (val / 0x1_0000_0000) as u32,
    }
}

/// Names and addresses correspond one to one.
pub proof fn lemma_addr_round_trip(id: ResourceId, addr: u64)
    ensures
        name_at(addr_of(id)) == id,
        addr_of(name_at(addr)) == addr,
{
}

} // verus!
