//! Device GUIDs.
use vstd::prelude::*;

verus! {

/// The GUID of a device: eight bytes in network byte order.
#[derive(Debug, Clone, Copy, PartialEq, Eq)]
pub struct Guid {
    bytes: [u8; 8],
}

impl View for Guid {
    type V = Seq<u8>;

    closed spec fn view(&self) -> Seq<u8> {
        self.bytes@
    }
}

impl Guid {
    /// The GUID with the bytes `bytes`, which are in network byte order.
    pub fn from_bytes(bytes: [u8; 8]) -> (g: Self)
        ensures
            g@ == bytes@,
    {
        Guid { bytes }
    }

    /// The bytes of the GUID, in network byte order.
    pub fn as_bytes(&self) -> (bytes: &[u8; 8])
        ensures
            bytes@ == self@,
    {
        &self.bytes
    }
}

} // verus!
