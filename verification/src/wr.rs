//! Work requests: what is posted to a queue pair.
use crate::ah::AddressHandle;
use crate::casts::addr_to_u64;
use vstd::prelude::*;
use vstd::slice::slice_to_vec;

verus! {

/// One piece of local memory of a work request: `length` bytes at `addr`,
/// under the local key `lkey`.
#[derive(Debug, Clone, Copy, PartialEq, Eq)]
pub struct Sge {
    pub addr: u64,
    pub length: u32,
    pub lkey: u32,
}

/// Where a send request goes. The provider keeps the fields for remote
/// memory access and those for datagrams in the same memory, so they are kept
/// that way here: the remote address lies where the address handle lies, and
/// the remote key where the remote queue number lies.
#[derive(Debug, Clone, Copy, PartialEq, Eq)]
pub struct Target {
    /// The remote address, or the provider's handle of the address handle.
    pub addr_or_ah: u64,
    /// The remote key, or the number of the remote queue pair.
    pub rkey_or_qpn: u32,
    /// The key of the remote queue.
    pub qkey: u32,
}

/// A request to send, with the request that follows it in its chain.
///
/// Posting is the one place where the caller answers for memory: every
/// address in the chain stays valid, and what is sent initialized, until the
/// provider has returned from the call.
#[derive(Debug)]
pub struct SendRequest {
    pub wr_id: u64,
    pub next: Option<Box<SendRequest>>,
    pub sg_list: Vec<Sge>,
    pub num_sge: i32,
    pub opcode: u32,
    pub send_flags: u32,
    pub imm_data: u32,
    pub wr: Target,
}

/// A request to receive, with the request that follows it in its chain.
#[derive(Debug)]
pub struct RecvRequest {
    pub wr_id: u64,
    pub next: Option<Box<RecvRequest>>,
    pub sg_list: Vec<Sge>,
    pub num_sge: i32,
}

/// The position of the first refused request as a failure reports it: the
/// position that the provider named, where it lies inside a chain of
/// `chain_len` requests.
pub open spec fn post_position(chain_len: nat, first_bad: Option<usize>) -> Option<usize> {
    match first_bad {
        Some(i) => if i < chain_len {
            Some(i)
        } else {
            None
        },
        None => None,
    }
}

impl SendRequest {
    /// The request with every field zero: no identifier, no follower, no
    /// memory, the opcode zero.
    pub fn zeroed() -> (r: Self)
        ensures
            r.wr_id == 0,
            r.next is None,
            r.sg_list@.len() == 0,
            r.num_sge == 0,
            r.opcode == 0,
            r.send_flags == 0,
            r.imm_data == 0,
            r.wr == (Target { addr_or_ah: 0, rkey_or_qpn: 0, qkey: 0 }),
    {
        SendRequest {
            wr_id: 0,
            next: None,
            sg_list: Vec::new(),
            num_sge: 0,
            opcode: 0,
            send_flags: 0,
            imm_data: 0,
            wr: Target { addr_or_ah: 0, rkey_or_qpn: 0, qkey: 0 },
        }
    }

    /// The number of requests in the chain that starts here.
    pub open spec fn chain_len(&self) -> nat
        decreases self,
    {
        match self.next {
            Some(n) => 1 + n.chain_len(),
            None => 1,
        }
    }

    /// Whether the chain that starts here has a request at position `i`.
    pub fn has_position(&self, i: usize) -> (b: bool)
        ensures
            b == (i < self.chain_len()),
        decreases self,
    {
        if i == 0 {
            true
        } else {
            match &self.next {
                Some(n) => n.has_position(i - 1),
                None => false,
            }
        }
    }

    /// Sets the identifier that the completion will carry.
    pub fn id(&mut self, id: u64) -> (r: &mut Self)
        ensures
            r.wr_id == id,
            r.next == old(self).next,
            r.sg_list == old(self).sg_list,
            r.num_sge == old(self).num_sge,
            r.opcode == old(self).opcode,
            r.send_flags == old(self).send_flags,
            r.imm_data == old(self).imm_data,
            r.wr == old(self).wr,
            *final(self) == *final(r),
    {
        self.wr_id = id;
        self
    }

    /// Sets the request that follows this one.
    pub fn next(&mut self, next: SendRequest) -> (r: &mut Self)
        ensures
            r.next == Some(Box::new(next)),
            r.chain_len() == 1 + next.chain_len(),
            r.wr_id == old(self).wr_id,
            r.sg_list == old(self).sg_list,
            r.num_sge == old(self).num_sge,
            r.opcode == old(self).opcode,
            r.send_flags == old(self).send_flags,
            r.imm_data == old(self).imm_data,
            r.wr == old(self).wr,
            *final(self) == *final(r),
    {
        self.next = Some(Box::new(next));
        self
    }

    /// Sets the local memory of the request. The provider is told the low 32
    /// bits of the number of pieces, read as a signed number.
    pub fn sg_list(&mut self, sg_list: &[Sge]) -> (r: &mut Self)
        ensures
            r.sg_list@ == sg_list@,
            r.num_sge == sg_list@.len() as i32,
            r.wr_id == old(self).wr_id,
            r.next == old(self).next,
            r.opcode == old(self).opcode,
            r.send_flags == old(self).send_flags,
            r.imm_data == old(self).imm_data,
            r.wr == old(self).wr,
            *final(self) == *final(r),
    {
        self.num_sge = #[verifier::truncate]
        (sg_list.len() as i32);
        self.sg_list = slice_to_vec(sg_list);
        self
    }

    /// Sets the operation.
    pub fn opcode(&mut self, opcode: Opcode) -> (r: &mut Self)
        ensures
            r.opcode == opcode.raw(),
            r.wr_id == old(self).wr_id,
            r.next == old(self).next,
            r.sg_list == old(self).sg_list,
            r.num_sge == old(self).num_sge,
            r.send_flags == old(self).send_flags,
            r.imm_data == old(self).imm_data,
            r.wr == old(self).wr,
            *final(self) == *final(r),
    {
        self.opcode = opcode.to_c_uint();
        self
    }

    /// Sets the flags.
    pub fn send_flags(&mut self, send_flags: SendFlags) -> (r: &mut Self)
        ensures
            r.send_flags == send_flags.bits,
            r.wr_id == old(self).wr_id,
            r.next == old(self).next,
            r.sg_list == old(self).sg_list,
            r.num_sge == old(self).num_sge,
            r.opcode == old(self).opcode,
            r.imm_data == old(self).imm_data,
            r.wr == old(self).wr,
            *final(self) == *final(r),
    {
        self.send_flags = send_flags.bits();
        self
    }

    /// Sets the address handle of a datagram. The handle is named, not owned:
    /// the caller keeps it alive until the request has been posted. This
    /// overwrites a remote address.
    pub fn ud_ah(&mut self, ah: &AddressHandle) -> (r: &mut Self)
        ensures
            r.wr == (Target { addr_or_ah: ah.handle.ffi_ptr() as u64, ..old(self).wr }),
            r.wr_id == old(self).wr_id,
            r.next == old(self).next,
            r.sg_list == old(self).sg_list,
            r.num_sge == old(self).num_sge,
            r.opcode == old(self).opcode,
            r.send_flags == old(self).send_flags,
            r.imm_data == old(self).imm_data,
            *final(self) == *final(r),
    {
        self.wr.addr_or_ah = addr_to_u64(ah.ffi_ptr());
        self
    }

    /// Sets the number of the remote queue pair of a datagram. This
    /// overwrites a remote key.
    pub fn ud_remote_qpn(&mut self, remote_qpn: u32) -> (r: &mut Self)
        ensures
            r.wr == (Target { rkey_or_qpn: remote_qpn, ..old(self).wr }),
            r.wr_id == old(self).wr_id,
            r.next == old(self).next,
            r.sg_list == old(self).sg_list,
            r.num_sge == old(self).num_sge,
            r.opcode == old(self).opcode,
            r.send_flags == old(self).send_flags,
            r.imm_data == old(self).imm_data,
            *final(self) == *final(r),
    {
        self.wr.rkey_or_qpn = remote_qpn;
        self
    }

    /// Sets the key of the remote queue of a datagram.
    pub fn ud_remote_qkey(&mut self, remote_qkey: u32) -> (r: &mut Self)
        ensures
            r.wr == (Target { qkey: remote_qkey, ..old(self).wr }),
            r.wr_id == old(self).wr_id,
            r.next == old(self).next,
            r.sg_list == old(self).sg_list,
            r.num_sge == old(self).num_sge,
            r.opcode == old(self).opcode,
            r.send_flags == old(self).send_flags,
            r.imm_data == old(self).imm_data,
            *final(self) == *final(r),
    {
        self.wr.qkey = remote_qkey;
        self
    }

    /// Sets the remote address of a remote memory access. This overwrites an
    /// address handle.
    pub fn rdma_remote_addr(&mut self, remote_addr: u64) -> (r: &mut Self)
        ensures
            r.wr == (Target { addr_or_ah: remote_addr, ..old(self).wr }),
            r.wr_id == old(self).wr_id,
            r.next == old(self).next,
            r.sg_list == old(self).sg_list,
            r.num_sge == old(self).num_sge,
            r.opcode == old(self).opcode,
            r.send_flags == old(self).send_flags,
            r.imm_data == old(self).imm_data,
            *final(self) == *final(r),
    {
        self.wr.addr_or_ah = remote_addr;
        self
    }

    /// Sets the remote key of a remote memory access. This overwrites the
    /// number of a remote queue pair.
    pub fn rdma_rkey(&mut self, rkey: u32) -> (r: &mut Self)
        ensures
            r.wr == (Target { rkey_or_qpn: rkey, ..old(self).wr }),
            r.wr_id == old(self).wr_id,
            r.next == old(self).next,
            r.sg_list == old(self).sg_list,
            r.num_sge == old(self).num_sge,
            r.opcode == old(self).opcode,
            r.send_flags == old(self).send_flags,
            r.imm_data == old(self).imm_data,
            *final(self) == *final(r),
    {
        self.wr.rkey_or_qpn = rkey;
        self
    }

    /// Sets the immediate data.
    pub fn imm_data(&mut self, imm_data: u32) -> (r: &mut Self)
        ensures
            r.imm_data == imm_data,
            r.wr_id == old(self).wr_id,
            r.next == old(self).next,
            r.sg_list == old(self).sg_list,
            r.num_sge == old(self).num_sge,
            r.opcode == old(self).opcode,
            r.send_flags == old(self).send_flags,
            r.wr == old(self).wr,
            *final(self) == *final(r),
    {
        self.imm_data = imm_data;
        self
    }
}

impl RecvRequest {
    /// The request with every field zero: no identifier, no follower, no
    /// memory.
    pub fn zeroed() -> (r: Self)
        ensures
            r.wr_id == 0,
            r.next is None,
            r.sg_list@.len() == 0,
            r.num_sge == 0,
    {
        RecvRequest { wr_id: 0, next: None, sg_list: Vec::new(), num_sge: 0 }
    }

    /// The number of requests in the chain that starts here.
    pub open spec fn chain_len(&self) -> nat
        decreases self,
    {
        match self.next {
            Some(n) => 1 + n.chain_len(),
            None => 1,
        }
    }

    /// Whether the chain that starts here has a request at position `i`.
    pub fn has_position(&self, i: usize) -> (b: bool)
        ensures
            b == (i < self.chain_len()),
        decreases self,
    {
        if i == 0 {
            true
        } else {
            match &self.next {
                Some(n) => n.has_position(i - 1),
                None => false,
            }
        }
    }

    /// Sets the identifier that the completion will carry.
    pub fn id(&mut self, id: u64) -> (r: &mut Self)
        ensures
            r.wr_id == id,
            r.next == old(self).next,
            r.sg_list == old(self).sg_list,
            r.num_sge == old(self).num_sge,
            *final(self) == *final(r),
    {
        self.wr_id = id;
        self
    }

    /// Sets the request that follows this one.
    pub fn next(&mut self, next: RecvRequest) -> (r: &mut Self)
        ensures
            r.next == Some(Box::new(next)),
            r.chain_len() == 1 + next.chain_len(),
            r.wr_id == old(self).wr_id,
            r.sg_list == old(self).sg_list,
            r.num_sge == old(self).num_sge,
            *final(self) == *final(r),
    {
        self.next = Some(Box::new(next));
        self
    }

    /// Sets the local memory of the request. The provider is told the low 32
    /// bits of the number of pieces, read as a signed number.
    pub fn sg_list(&mut self, sg_list: &[Sge]) -> (r: &mut Self)
        ensures
            r.sg_list@ == sg_list@,
            r.num_sge == sg_list@.len() as i32,
            r.wr_id == old(self).wr_id,
            r.next == old(self).next,
            *final(self) == *final(r),
    {
        self.num_sge = #[verifier::truncate]
        (sg_list.len() as i32);
        self.sg_list = slice_to_vec(sg_list);
        self
    }
}

/// The operation of a send request.
#[derive(Debug, Clone, Copy, PartialEq, Eq, Structural)]
pub enum Opcode {
    Send,
    SendWithImm,
    Write,
    Read,
    AtomicFetchAdd,
    AtomicCAS,
}

impl Opcode {
    /// The wire value of the operation.
    pub open spec fn raw(self) -> u32 {
        match self {
            Opcode::Send => 2,
            Opcode::SendWithImm => 3,
            Opcode::Write => 0,
            Opcode::Read => 4,
            Opcode::AtomicFetchAdd => 6,
            Opcode::AtomicCAS => 5,
        }
    }

    /// The operation that the wire value `value` stands for, if it stands for one.
    pub open spec fn decode(value: u32) -> Option<Opcode> {
        if value == 2 {
            Some(Opcode::Send)
        } else if value == 3 {
            Some(Opcode::SendWithImm)
        } else if value == 0 {
            Some(Opcode::Write)
        } else if value == 4 {
            Some(Opcode::Read)
        } else if value == 6 {
            Some(Opcode::AtomicFetchAdd)
        } else if value == 5 {
            Some(Opcode::AtomicCAS)
        } else {
            None
        }
    }

    /// The wire value of the operation.
    pub fn to_c_uint(self) -> (r: u32)
        ensures
            r == self.raw(),
            Opcode::decode(r) == Some(self),
    {
        match self {
            Opcode::Send => 2,
            Opcode::SendWithImm => 3,
            Opcode::Write => 0,
            Opcode::Read => 4,
            Opcode::AtomicFetchAdd => 6,
            Opcode::AtomicCAS => 5,
        }
    }
}

/// Reading the wire value of a operation gives that operation back, and a wire value
/// that reads as a operation is the wire value of what it reads as: no other
/// value is accepted.
pub proof fn lemma_operation_round_trip(x: Opcode, value: u32)
    ensures
        Opcode::decode(x.raw()) == Some(x),
        Opcode::decode(value) is Some ==> Opcode::decode(value)->0.raw() == value,
{
}
/// How a send request is carried out.
#[derive(Debug, Clone, Copy, PartialEq, Eq, Structural)]
pub struct SendFlags {
    pub bits: u32,
}

/// The bit of [`SendFlags::fence`].
pub const SEND_FENCE: u32 = 0x1;

/// The bit of [`SendFlags::signaled`].
pub const SEND_SIGNALED: u32 = 0x2;

/// The bit of [`SendFlags::solicited`].
pub const SEND_SOLICITED: u32 = 0x4;

/// The bit of [`SendFlags::inline_data`].
pub const SEND_INLINE: u32 = 0x8;

/// The bit of [`SendFlags::ip_csum`].
pub const SEND_IP_CSUM: u32 = 0x10;

/// Every bit that stands for a flag.
pub const SEND_ALL: u32 = 0x1f;

impl SendFlags {
    /// The request waits for earlier reads and atomics.
    pub fn fence() -> (r: Self)
        ensures
            r.bits == SEND_FENCE,
    {
        SendFlags { bits: SEND_FENCE }
    }

    /// The request produces a completion.
    pub fn signaled() -> (r: Self)
        ensures
            r.bits == SEND_SIGNALED,
    {
        SendFlags { bits: SEND_SIGNALED }
    }

    /// The request raises a solicited event at the peer.
    pub fn solicited() -> (r: Self)
        ensures
            r.bits == SEND_SOLICITED,
    {
        SendFlags { bits: SEND_SOLICITED }
    }

    /// The data is copied into the request.
    pub fn inline_data() -> (r: Self)
        ensures
            r.bits == SEND_INLINE,
    {
        SendFlags { bits: SEND_INLINE }
    }

    /// The provider computes the IP checksum.
    pub fn ip_csum() -> (r: Self)
        ensures
            r.bits == SEND_IP_CSUM,
    {
        SendFlags { bits: SEND_IP_CSUM }
    }

    /// No flag.
    pub fn empty() -> (r: Self)
        ensures
            r.bits == 0,
    {
        SendFlags { bits: 0 }
    }

    /// Every flag.
    pub fn all() -> (r: Self)
        ensures
            r.bits == SEND_ALL,
    {
        SendFlags { bits: SEND_ALL }
    }

    /// The flags as bits.
    pub fn bits(&self) -> (r: u32)
        ensures
            r == self.bits,
    {
        self.bits
    }

    /// The flags as the provider takes them.
    pub fn to_c_uint(&self) -> (r: u32)
        ensures
            r == self.bits,
    {
        self.bits
    }

    /// The flags that `bits` stands for, if every bit of it stands for a flag.
    pub fn from_bits(bits: u32) -> (r: Option<Self>)
        ensures
            r == if bits & !SEND_ALL == 0 {
                Some(SendFlags { bits })
            } else {
                None
            },
    {
        if bits & !SEND_ALL == 0 {
            Some(SendFlags { bits })
        } else {
            None
        }
    }

    /// The flags that `bits` stands for; bits that stand for no flag are
    /// dropped.
    pub fn from_bits_truncate(bits: u32) -> (r: Self)
        ensures
            r.bits == bits & SEND_ALL,
    {
        SendFlags { bits: bits & SEND_ALL }
    }

    /// The flags of `self` together with those of `other`.
    pub fn union(self, other: Self) -> (r: Self)
        ensures
            r.bits == self.bits | other.bits,
    {
        SendFlags { bits: self.bits | other.bits }
    }

    /// Whether every flag of `other` is a flag of `self`.
    pub fn contains(&self, other: Self) -> (r: bool)
        ensures
            r == (self.bits & other.bits == other.bits),
    {
        self.bits & other.bits == other.bits
    }

    /// Whether there is no flag.
    pub fn is_empty(&self) -> (r: bool)
        ensures
            r == (self.bits == 0),
    {
        self.bits == 0
    }
}

/// A union holds exactly the flags of its two sides, and reading flags from
/// their own bits gives them back.
pub proof fn lemma_send_union(a: u32, b: u32)
    ensures
        (a | b) & a == a,
        (a | b) & b == b,
        a & !SEND_ALL == 0 && b & !SEND_ALL == 0 ==> (a | b) & !SEND_ALL == 0,
        (a & SEND_ALL) & !SEND_ALL == 0,
{
    assert((a | b) & a == a) by (bit_vector);
    assert((a | b) & b == b) by (bit_vector);
    assert(a & !SEND_ALL == 0 && b & !SEND_ALL == 0 ==> (a | b) & !SEND_ALL == 0) by (bit_vector);
    assert((a & SEND_ALL) & !SEND_ALL == 0) by (bit_vector);
}

} // verus!
