//! Port GIDs and the entries of a GID table.
use crate::error::{custom_error, Error};
use vstd::prelude::*;
use vstd::std_specs::cmp::PartialEqSpecImpl;
use vstd::std_specs::convert::TryFromSpecImpl;

verus! {

/// A GID: sixteen bytes in network byte order, a subnet prefix followed by an
/// interface identifier.
#[derive(Debug, Clone, Copy)]
pub struct Gid {
    bytes: [u8; 16],
}

impl View for Gid {
    type V = Seq<u8>;

    closed spec fn view(&self) -> Seq<u8> {
        self.bytes@
    }
}

impl PartialEq for Gid {
    /// Two GIDs are equal where their bytes are.
    fn eq(&self, other: &Self) -> (r: bool) {
        let mut i: usize = 0;
        while i < 16
            invariant
                i <= 16,
                forall|j: int| 0 <= j < i ==> self.bytes@[j] == other.bytes@[j],
            decreases 16 - i,
        {
            if self.bytes[i] != other.bytes[i] {
                return false;
            }
            i += 1;
        }
        assert(self.bytes@ =~= other.bytes@);
        true
    }
}

impl PartialEqSpecImpl for Gid {
    open spec fn obeys_eq_spec() -> bool {
        true
    }

    open spec fn eq_spec(&self, other: &Self) -> bool {
        self@ == other@
    }
}

impl Eq for Gid {

}

/// The number that eight bytes are when the first byte counts least.
pub open spec fn le_u64(b: Seq<u8>) -> int {
    b[0] + b[1] * 0x100 + b[2] * 0x1_0000 + b[3] * 0x100_0000 + b[4] * 0x1_0000_0000 + b[5]
        * 0x100_0000_0000 + b[6] * 0x1_0000_0000_0000 + b[7] * 0x100_0000_0000_0000
}

/// The number that eight bytes are when the first byte counts most.
pub open spec fn be_u64(b: Seq<u8>) -> int {
    b[7] + b[6] * 0x100 + b[5] * 0x1_0000 + b[4] * 0x100_0000 + b[3] * 0x1_0000_0000 + b[2]
        * 0x100_0000_0000 + b[1] * 0x1_0000_0000_0000 + b[0] * 0x100_0000_0000_0000
}

/// `u64::from_ne_bytes`: the number that the bytes are in the byte order of
/// the machine, which is one of the two orders.
#[verifier::external_body]
fn u64_from_ne_bytes(bytes: [u8; 8]) -> (r: u64)
    ensures
        r == le_u64(bytes@) || r == be_u64(bytes@),
{
    u64::from_ne_bytes(bytes)
}

impl Gid {
    /// The GID with the bytes `bytes`, which are in network byte order.
    pub fn from_bytes(bytes: [u8; 16]) -> (g: Self)
        ensures
            g@ == bytes@,
    {
        Gid { bytes }
    }

    /// The bytes of the GID, in network byte order.
    pub fn as_bytes(&self) -> (bytes: &[u8; 16])
        ensures
            bytes@ == self@,
    {
        &self.bytes
    }

    /// The eight 16-bit groups of the GID read as an IPv6 address: each group
    /// is two bytes, the first of which counts most.
    pub fn to_ipv6_segments(&self) -> (r: [u16; 8])
        ensures
            forall|k: int| 0 <= k < 8 ==> #[trigger] r@[k] == self@[2 * k] * 0x100 + self@[2 * k + 1],
    {
        let b = &self.bytes;
        [
            (b[0] as u16) * 0x100 + b[1] as u16,
            (b[2] as u16) * 0x100 + b[3] as u16,
            (b[4] as u16) * 0x100 + b[5] as u16,
            (b[6] as u16) * 0x100 + b[7] as u16,
            (b[8] as u16) * 0x100 + b[9] as u16,
            (b[10] as u16) * 0x100 + b[11] as u16,
            (b[12] as u16) * 0x100 + b[13] as u16,
            (b[14] as u16) * 0x100 + b[15] as u16,
        ]
    }

    /// The subnet prefix as the provider holds it in memory: the first eight
    /// bytes, read in the byte order of the machine.
    pub fn subnet_prefix(&self) -> (r: u64)
        ensures
            r == le_u64(self@.subrange(0, 8)) || r == be_u64(self@.subrange(0, 8)),
    {
        let b = &self.bytes;
        let head: [u8; 8] = [b[0], b[1], b[2], b[3], b[4], b[5], b[6], b[7]];
        assert(head@ =~= self@.subrange(0, 8));
        u64_from_ne_bytes(head)
    }

    /// The interface identifier as the provider holds it in memory: the last
    /// eight bytes, read in the byte order of the machine.
    pub fn interface_id(&self) -> (r: u64)
        ensures
            r == le_u64(self@.subrange(8, 16)) || r == be_u64(self@.subrange(8, 16)),
    {
        let b = &self.bytes;
        let tail: [u8; 8] = [b[8], b[9], b[10], b[11], b[12], b[13], b[14], b[15]];
        assert(tail@ =~= self@.subrange(8, 16));
        u64_from_ne_bytes(tail)
    }
}

/// The kind of a GID.
#[derive(Debug, Clone, Copy, PartialEq, Eq, Structural)]
pub enum GidType {
    IB,
    RoceV1,
    RoceV2,
}

impl GidType {
    /// The wire value of the GID type.
    pub open spec fn raw(self) -> u32 {
        match self {
            GidType::IB => 0,
            GidType::RoceV1 => 1,
            GidType::RoceV2 => 2,
        }
    }

    /// The GID type that the wire value `value` stands for, if it stands for one.
    pub open spec fn decode(value: u32) -> Option<GidType> {
        if value == 0 {
            Some(GidType::IB)
        } else if value == 1 {
            Some(GidType::RoceV1)
        } else if value == 2 {
            Some(GidType::RoceV2)
        } else {
            None
        }
    }

    /// The wire value of the GID type.
    pub fn to_c_uint(self) -> (r: u32)
        ensures
            r == self.raw(),
            GidType::decode(r) == Some(self),
    {
        match self {
            GidType::IB => 0,
            GidType::RoceV1 => 1,
            GidType::RoceV2 => 2,
        }
    }
}

impl TryFrom<u32> for GidType {
    type Error = ();

    /// Reads a wire value: the GID type that it stands for, or a conversion
    /// failure where it stands for none.
    fn try_from(value: u32) -> (r: Result<Self, ()>) {
        match value {
            0 => Ok(GidType::IB),
            1 => Ok(GidType::RoceV1),
            2 => Ok(GidType::RoceV2),
            _ => Err(()),
        }
    }
}

impl TryFromSpecImpl<u32> for GidType {
    open spec fn obeys_try_from_spec() -> bool {
        true
    }

    open spec fn try_from_spec(value: u32) -> Result<Self, ()> {
        match GidType::decode(value) {
            Some(x) => Ok(x),
            None => Err(()),
        }
    }
}

/// Reading the wire value of a GID type gives that GID type back, and a wire value
/// that reads as a GID type is the wire value of what it reads as: no other
/// value is accepted.
pub proof fn lemma_gid_type_round_trip(x: GidType, value: u32)
    ensures
        GidType::decode(x.raw()) == Some(x),
        GidType::decode(value) is Some ==> GidType::decode(value)->0.raw() == value,
{
}
/// One entry of the GID table of a port. The type of the GID is kept as a
/// wire value: it is read with [`GidEntry::gid_type`].
#[derive(Debug, Clone, Copy)]
pub struct GidEntry {
    pub gid: Gid,
    pub gid_index: u32,
    pub port_num: u32,
    pub gid_type: u32,
    pub ndev_ifindex: u32,
}

impl GidEntry {
    /// Sorts the provider's answer to a query for one entry of a GID table:
    /// the status `ret` and the entry `entry` that it filled in. Zero is
    /// success; any other status is a failure that carries no code.
    pub fn query(ret: i32, entry: GidEntry) -> (r: Result<Self, Error>)
        ensures
            ret == 0 ==> r == Ok::<GidEntry, Error>(entry),
            ret != 0 ==> r == Err::<GidEntry, Error>(
                Error::Custom { label: "failed to query gid entry" },
            ),
    {
        if ret != 0 {
            return Err(custom_error("failed to query gid entry"));
        }
        Ok(entry)
    }

    /// Whether the type of the GID is a wire value that stands for one.
    pub fn has_gid_type(&self) -> (b: bool)
        ensures
            b == GidType::decode(self.gid_type) is Some,
    {
        GidType::try_from(self.gid_type).is_ok()
    }

    /// The type of the GID. Its wire value must stand for one, see
    /// [`Self::has_gid_type`].
    pub fn gid_type(&self) -> (r: GidType)
        requires
            GidType::decode(self.gid_type) is Some,
        ensures
            Some(r) == GidType::decode(self.gid_type),
    {
        match GidType::try_from(self.gid_type) {
            Ok(t) => t,
            Err(_) => GidType::IB,
        }
    }

    /// The GID.
    pub fn gid(&self) -> (r: Gid)
        ensures
            r == self.gid,
    {
        self.gid
    }
}

} // verus!
