//! The attributes of a port.
use crate::error::{check_status, Error};
use vstd::prelude::*;
use vstd::std_specs::convert::TryFromSpecImpl;

verus! {

/// What the provider tells about a port. The state, the link layer and the
/// MTU are kept as wire values: they are read with the methods of their
/// names.
#[derive(Debug, Clone, Copy, PartialEq, Eq)]
pub struct PortAttr {
    pub state: u32,
    pub active_mtu: u32,
    pub gid_tbl_len: i32,
    pub lid: u16,
    pub link_layer: u8,
}

impl PortAttr {
    /// Sorts the provider's answer to a query for the attributes of a port:
    /// the status `ret` and the attributes `attr` that it filled in. Zero is
    /// success; any other status is the OS error code of an operation failure.
    pub fn query(ret: i32, attr: PortAttr) -> (r: Result<Self, Error>)
        ensures
            ret == 0 ==> r == Ok::<PortAttr, Error>(attr),
            ret != 0 ==> r == Err::<PortAttr, Error>(Error::Operation { code: ret }),
    {
        match check_status(ret) {
            Ok(()) => Ok(attr),
            Err(e) => Err(e),
        }
    }

    /// Whether the three wire values stand for a state, a link layer and an
    /// MTU.
    pub open spec fn decodable(&self) -> bool {
        &&& PortState::decode(self.state) is Some
        &&& LinkLayer::decode(self.link_layer as u32) is Some
        &&& Mtu::decode(self.active_mtu) is Some
    }

    /// Decides [`Self::decodable`].
    pub fn is_decodable(&self) -> (b: bool)
        ensures
            b == self.decodable(),
    {
        PortState::try_from(self.state).is_ok() && LinkLayer::try_from(self.link_layer as u32).is_ok()
            && Mtu::try_from(self.active_mtu).is_ok()
    }

    /// The state of the port. Its wire value must stand for one.
    pub fn state(&self) -> (r: PortState)
        requires
            PortState::decode(self.state) is Some,
        ensures
            Some(r) == PortState::decode(self.state),
    {
        match PortState::try_from(self.state) {
            Ok(x) => x,
            Err(_) => PortState::Nop,
        }
    }

    /// The length of the GID table, as an unsigned number.
    pub fn gid_table_len(&self) -> (r: u32)
        ensures
            r == self.gid_tbl_len as u32,
    {
        #[verifier::truncate]
        (self.gid_tbl_len as u32)
    }

    /// The link layer of the port. Its wire value must stand for one.
    pub fn link_layer(&self) -> (r: LinkLayer)
        requires
            LinkLayer::decode(self.link_layer as u32) is Some,
        ensures
            Some(r) == LinkLayer::decode(self.link_layer as u32),
    {
        match LinkLayer::try_from(self.link_layer as u32) {
            Ok(x) => x,
            Err(_) => LinkLayer::Unspecified,
        }
    }

    /// The local identifier of the port.
    pub fn lid(&self) -> (r: u16)
        ensures
            r == self.lid,
    {
        self.lid
    }

    /// The MTU that the port runs with. Its wire value must stand for one.
    pub fn active_mtu(&self) -> (r: Mtu)
        requires
            Mtu::decode(self.active_mtu) is Some,
        ensures
            Some(r) == Mtu::decode(self.active_mtu),
    {
        match Mtu::try_from(self.active_mtu) {
            Ok(x) => x,
            Err(_) => Mtu::Mtu256,
        }
    }
}

/// The state of a port.
#[derive(Debug, Clone, Copy, PartialEq, Eq, Structural)]
pub enum PortState {
    Nop,
    Down,
    Init,
    Armed,
    Active,
    ActiveDefer,
}

impl PortState {
    /// The wire value of the port state.
    pub open spec fn raw(self) -> u32 {
        match self {
            PortState::Nop => 0,
            PortState::Down => 1,
            PortState::Init => 2,
            PortState::Armed => 3,
            PortState::Active => 4,
            PortState::ActiveDefer => 5,
        }
    }

    /// The port state that the wire value `value` stands for, if it stands for one.
    pub open spec fn decode(value: u32) -> Option<PortState> {
        if value == 0 {
            Some(PortState::Nop)
        } else if value == 1 {
            Some(PortState::Down)
        } else if value == 2 {
            Some(PortState::Init)
        } else if value == 3 {
            Some(PortState::Armed)
        } else if value == 4 {
            Some(PortState::Active)
        } else if value == 5 {
            Some(PortState::ActiveDefer)
        } else {
            None
        }
    }

    /// The wire value of the port state.
    pub fn to_c_uint(self) -> (r: u32)
        ensures
            r == self.raw(),
            PortState::decode(r) == Some(self),
    {
        match self {
            PortState::Nop => 0,
            PortState::Down => 1,
            PortState::Init => 2,
            PortState::Armed => 3,
            PortState::Active => 4,
            PortState::ActiveDefer => 5,
        }
    }
}

impl TryFrom<u32> for PortState {
    type Error = ();

    /// Reads a wire value: the port state that it stands for, or a conversion
    /// failure where it stands for none.
    fn try_from(value: u32) -> (r: Result<Self, ()>) {
        match value {
            0 => Ok(PortState::Nop),
            1 => Ok(PortState::Down),
            2 => Ok(PortState::Init),
            3 => Ok(PortState::Armed),
            4 => Ok(PortState::Active),
            5 => Ok(PortState::ActiveDefer),
            _ => Err(()),
        }
    }
}

impl TryFromSpecImpl<u32> for PortState {
    open spec fn obeys_try_from_spec() -> bool {
        true
    }

    open spec fn try_from_spec(value: u32) -> Result<Self, ()> {
        match PortState::decode(value) {
            Some(x) => Ok(x),
            None => Err(()),
        }
    }
}

/// Reading the wire value of a port state gives that port state back, and a wire value
/// that reads as a port state is the wire value of what it reads as: no other
/// value is accepted.
pub proof fn lemma_port_state_round_trip(x: PortState, value: u32)
    ensures
        PortState::decode(x.raw()) == Some(x),
        PortState::decode(value) is Some ==> PortState::decode(value)->0.raw() == value,
{
}
/// The link layer of a port.
#[derive(Debug, Clone, Copy, PartialEq, Eq, Structural)]
pub enum LinkLayer {
    Unspecified,
    Infiniband,
    Ethernet,
}

impl LinkLayer {
    /// The wire value of the link layer.
    pub open spec fn raw(self) -> u32 {
        match self {
            LinkLayer::Unspecified => 0,
            LinkLayer::Infiniband => 1,
            LinkLayer::Ethernet => 2,
        }
    }

    /// The link layer that the wire value `value` stands for, if it stands for one.
    pub open spec fn decode(value: u32) -> Option<LinkLayer> {
        if value == 0 {
            Some(LinkLayer::Unspecified)
        } else if value == 1 {
            Some(LinkLayer::Infiniband)
        } else if value == 2 {
            Some(LinkLayer::Ethernet)
        } else {
            None
        }
    }

    /// The wire value of the link layer.
    pub fn to_c_uint(self) -> (r: u32)
        ensures
            r == self.raw(),
            LinkLayer::decode(r) == Some(self),
    {
        match self {
            LinkLayer::Unspecified => 0,
            LinkLayer::Infiniband => 1,
            LinkLayer::Ethernet => 2,
        }
    }
}

impl TryFrom<u32> for LinkLayer {
    type Error = ();

    /// Reads a wire value: the link layer that it stands for, or a conversion
    /// failure where it stands for none.
    fn try_from(value: u32) -> (r: Result<Self, ()>) {
        match value {
            0 => Ok(LinkLayer::Unspecified),
            1 => Ok(LinkLayer::Infiniband),
            2 => Ok(LinkLayer::Ethernet),
            _ => Err(()),
        }
    }
}

impl TryFromSpecImpl<u32> for LinkLayer {
    open spec fn obeys_try_from_spec() -> bool {
        true
    }

    open spec fn try_from_spec(value: u32) -> Result<Self, ()> {
        match LinkLayer::decode(value) {
            Some(x) => Ok(x),
            None => Err(()),
        }
    }
}

/// Reading the wire value of a link layer gives that link layer back, and a wire value
/// that reads as a link layer is the wire value of what it reads as: no other
/// value is accepted.
pub proof fn lemma_link_layer_round_trip(x: LinkLayer, value: u32)
    ensures
        LinkLayer::decode(x.raw()) == Some(x),
        LinkLayer::decode(value) is Some ==> LinkLayer::decode(value)->0.raw() == value,
{
}
/// A path MTU.
#[derive(Debug, Clone, Copy, PartialEq, Eq, Structural)]
pub enum Mtu {
    Mtu256,
    Mtu512,
    Mtu1024,
    Mtu2048,
    Mtu4096,
}

impl Mtu {
    /// The wire value of the MTU.
    pub open spec fn raw(self) -> u32 {
        match self {
            Mtu::Mtu256 => 1,
            Mtu::Mtu512 => 2,
            Mtu::Mtu1024 => 3,
            Mtu::Mtu2048 => 4,
            Mtu::Mtu4096 => 5,
        }
    }

    /// The MTU that the wire value `value` stands for, if it stands for one.
    pub open spec fn decode(value: u32) -> Option<Mtu> {
        if value == 1 {
            Some(Mtu::Mtu256)
        } else if value == 2 {
            Some(Mtu::Mtu512)
        } else if value == 3 {
            Some(Mtu::Mtu1024)
        } else if value == 4 {
            Some(Mtu::Mtu2048)
        } else if value == 5 {
            Some(Mtu::Mtu4096)
        } else {
            None
        }
    }

    /// The wire value of the MTU.
    pub fn to_c_uint(self) -> (r: u32)
        ensures
            r == self.raw(),
            Mtu::decode(r) == Some(self),
    {
        match self {
            Mtu::Mtu256 => 1,
            Mtu::Mtu512 => 2,
            Mtu::Mtu1024 => 3,
            Mtu::Mtu2048 => 4,
            Mtu::Mtu4096 => 5,
        }
    }
}

impl TryFrom<u32> for Mtu {
    type Error = ();

    /// Reads a wire value: the MTU that it stands for, or a conversion
    /// failure where it stands for none.
    fn try_from(value: u32) -> (r: Result<Self, ()>) {
        match value {
            1 => Ok(Mtu::Mtu256),
            2 => Ok(Mtu::Mtu512),
            3 => Ok(Mtu::Mtu1024),
            4 => Ok(Mtu::Mtu2048),
            5 => Ok(Mtu::Mtu4096),
            _ => Err(()),
        }
    }
}

impl TryFromSpecImpl<u32> for Mtu {
    open spec fn obeys_try_from_spec() -> bool {
        true
    }

    open spec fn try_from_spec(value: u32) -> Result<Self, ()> {
        match Mtu::decode(value) {
            Some(x) => Ok(x),
            None => Err(()),
        }
    }
}

/// Reading the wire value of a MTU gives that MTU back, and a wire value
/// that reads as a MTU is the wire value of what it reads as: no other
/// value is accepted.
pub proof fn lemma_mtu_round_trip(x: Mtu, value: u32)
    ensures
        Mtu::decode(x.raw()) == Some(x),
        Mtu::decode(value) is Some ==> Mtu::decode(value)->0.raw() == value,
{
}
impl Mtu {
    /// The number of bytes of the MTU.
    pub open spec fn bytes(self) -> nat {
        match self {
            Mtu::Mtu256 => 256,
            Mtu::Mtu512 => 512,
            Mtu::Mtu1024 => 1024,
            Mtu::Mtu2048 => 2048,
            Mtu::Mtu4096 => 4096,
        }
    }

    /// The number of bytes of the MTU: two to the power of its wire value
    /// plus seven.
    pub fn size(self) -> (r: usize)
        ensures
            r == self.bytes(),
            r == vstd::arithmetic::power2::pow2((self.raw() + 7) as nat),
    {
        proof {
            vstd::arithmetic::power2::lemma2_to64();
        }
        match self {
            Mtu::Mtu256 => 256,
            Mtu::Mtu512 => 512,
            Mtu::Mtu1024 => 1024,
            Mtu::Mtu2048 => 2048,
            Mtu::Mtu4096 => 4096,
        }
    }
}

} // verus!
