//! Queue pairs: the transport endpoints, their attributes and what is posted
//! to them.
use crate::ah::AddressHandleOptions;
use crate::cq::{name_of, CompletionQueue};
use crate::device::port_attr::Mtu;
use crate::error::{check_status, post_code, post_status};
use crate::handle::Borrowed;
use crate::mr::AccessFlags;
use crate::pd::ProtectionDomain;
use crate::srq::SharedReceiveQueue;
use crate::wr::{post_position, RecvRequest, SendRequest};
use crate::error::Error;
use crate::handle::{creation, failure, owed, releasing, sharing, Handle};
use crate::resource::{Parents, ResourceId, ResourceKind, Teardown};
use crate::table::ResourceTable;
use vstd::prelude::*;
use vstd::std_specs::convert::TryFromSpecImpl;

verus! {

/// The mask bit of the attribute `qp_state`.
pub const QP_STATE: u32 = 0x1;

/// The mask bit of the attribute `pkey_index`.
pub const QP_PKEY_INDEX: u32 = 0x10;

/// The mask bit of the attribute `port_num`.
pub const QP_PORT: u32 = 0x20;

/// The mask bit of the attribute `qkey`.
pub const QP_QKEY: u32 = 0x40;

/// The mask bit of the attribute `qp_access_flags`.
pub const QP_ACCESS_FLAGS: u32 = 0x8;

/// The mask bit of the attribute `path_mtu`.
pub const QP_PATH_MTU: u32 = 0x100;

/// The mask bit of the attribute `dest_qp_num`.
pub const QP_DEST_QPN: u32 = 0x100000;

/// The mask bit of the attribute `rq_psn`.
pub const QP_RQ_PSN: u32 = 0x1000;

/// The mask bit of the attribute `max_dest_rd_atomic`.
pub const QP_MAX_DEST_RD_ATOMIC: u32 = 0x20000;

/// The mask bit of the attribute `min_rnr_timer`.
pub const QP_MIN_RNR_TIMER: u32 = 0x8000;

/// The mask bit of the attribute `ah_attr`.
pub const QP_AV: u32 = 0x80;

/// The mask bit of the attribute `timeout`.
pub const QP_TIMEOUT: u32 = 0x200;

/// The mask bit of the attribute `retry_cnt`.
pub const QP_RETRY_CNT: u32 = 0x400;

/// The mask bit of the attribute `rnr_retry`.
pub const QP_RNR_RETRY: u32 = 0x800;

/// The mask bit of the attribute `sq_psn`.
pub const QP_SQ_PSN: u32 = 0x10000;

/// The mask bit of the attribute `max_rd_atomic`.
pub const QP_MAX_QP_RD_ATOMIC: u32 = 0x2000;

/// The mask bit of the capacity, which can only be queried.
pub const QP_CAP: u32 = 0x80000;

/// The bit that says that a protection domain is given at creation.
pub const QP_INIT_ATTR_PD: u32 = 1;

/// How much a queue pair holds.
#[derive(Debug, Clone, Copy, PartialEq, Eq)]
pub struct QueuePairCapacity {
    pub max_send_wr: u32,
    pub max_recv_wr: u32,
    pub max_send_sge: u32,
    pub max_recv_sge: u32,
    pub max_inline_data: u32,
}

impl Default for QueuePairCapacity {
    /// Every field zero.
    fn default() -> (r: Self)
        ensures
            r == (QueuePairCapacity {
                max_send_wr: 0,
                max_recv_wr: 0,
                max_send_sge: 0,
                max_recv_sge: 0,
                max_inline_data: 0,
            }),
    {
        QueuePairCapacity {
            max_send_wr: 0,
            max_recv_wr: 0,
            max_send_sge: 0,
            max_recv_sge: 0,
            max_inline_data: 0,
        }
    }
}

/// The transport of a queue pair.
#[derive(Debug, Clone, Copy, PartialEq, Eq, Structural)]
pub enum QueuePairType {
    /// Reliable connection.
    RC,
    /// Unreliable connection.
    UC,
    /// Unreliable datagram.
    UD,
    /// Defined by the driver.
    Driver,
    /// Receiving end of an extended reliable connection.
    XrcRecv,
    /// Sending end of an extended reliable connection.
    XrcSend,
}

impl QueuePairType {
    /// The wire value of the transport.
    pub open spec fn raw(self) -> u32 {
        match self {
            QueuePairType::RC => 2,
            QueuePairType::UC => 3,
            QueuePairType::UD => 4,
            QueuePairType::Driver => 255,
            QueuePairType::XrcRecv => 10,
            QueuePairType::XrcSend => 9,
        }
    }

    /// The transport that the wire value `value` stands for, if it stands for one.
    pub open spec fn decode(value: u32) -> Option<QueuePairType> {
        if value == 2 {
            Some(QueuePairType::RC)
        } else if value == 3 {
            Some(QueuePairType::UC)
        } else if value == 4 {
            Some(QueuePairType::UD)
        } else if value == 255 {
            Some(QueuePairType::Driver)
        } else if value == 10 {
            Some(QueuePairType::XrcRecv)
        } else if value == 9 {
            Some(QueuePairType::XrcSend)
        } else {
            None
        }
    }

    /// The wire value of the transport.
    pub fn to_c_uint(self) -> (r: u32)
        ensures
            r == self.raw(),
            QueuePairType::decode(r) == Some(self),
    {
        match self {
            QueuePairType::RC => 2,
            QueuePairType::UC => 3,
            QueuePairType::UD => 4,
            QueuePairType::Driver => 255,
            QueuePairType::XrcRecv => 10,
            QueuePairType::XrcSend => 9,
        }
    }
}

/// Reading the wire value of a transport gives that transport back, and a wire value
/// that reads as a transport is the wire value of what it reads as: no other
/// value is accepted.
pub proof fn lemma_transport_round_trip(x: QueuePairType, value: u32)
    ensures
        QueuePairType::decode(x.raw()) == Some(x),
        QueuePairType::decode(value) is Some ==> QueuePairType::decode(value)->0.raw() == value,
{
}
/// The state of a queue pair. A queue pair starts in `Reset` and is moved, by
/// the provider and on request, through `Initialize` and `ReadyToReceive` to
/// `ReadyToSend`; from there it may drain or fail. `Unknown` is what the
/// provider reports where it cannot tell.
#[derive(Debug, Clone, Copy, PartialEq, Eq, Structural)]
pub enum QueuePairState {
    Reset,
    Initialize,
    ReadyToReceive,
    ReadyToSend,
    SendQueueDrained,
    SendQueueError,
    Error,
    Unknown,
}

impl QueuePairState {
    /// The wire value of the queue pair state.
    pub open spec fn raw(self) -> u32 {
        match self {
            QueuePairState::Reset => 0,
            QueuePairState::Initialize => 1,
            QueuePairState::ReadyToReceive => 2,
            QueuePairState::ReadyToSend => 3,
            QueuePairState::SendQueueDrained => 4,
            QueuePairState::SendQueueError => 5,
            QueuePairState::Error => 6,
            QueuePairState::Unknown => 7,
        }
    }

    /// The queue pair state that the wire value `value` stands for, if it stands for one.
    pub open spec fn decode(value: u32) -> Option<QueuePairState> {
        if value == 0 {
            Some(QueuePairState::Reset)
        } else if value == 1 {
            Some(QueuePairState::Initialize)
        } else if value == 2 {
            Some(QueuePairState::ReadyToReceive)
        } else if value == 3 {
            Some(QueuePairState::ReadyToSend)
        } else if value == 4 {
            Some(QueuePairState::SendQueueDrained)
        } else if value == 5 {
            Some(QueuePairState::SendQueueError)
        } else if value == 6 {
            Some(QueuePairState::Error)
        } else if value == 7 {
            Some(QueuePairState::Unknown)
        } else {
            None
        }
    }

    /// The wire value of the queue pair state.
    pub fn to_c_uint(self) -> (r: u32)
        ensures
            r == self.raw(),
            QueuePairState::decode(r) == Some(self),
    {
        match self {
            QueuePairState::Reset => 0,
            QueuePairState::Initialize => 1,
            QueuePairState::ReadyToReceive => 2,
            QueuePairState::ReadyToSend => 3,
            QueuePairState::SendQueueDrained => 4,
            QueuePairState::SendQueueError => 5,
            QueuePairState::Error => 6,
            QueuePairState::Unknown => 7,
        }
    }
}

impl TryFrom<u32> for QueuePairState {
    type Error = ();

    /// Reads a wire value: the queue pair state that it stands for, or a conversion
    /// failure where it stands for none.
    fn try_from(value: u32) -> (r: Result<Self, ()>) {
        match value {
            0 => Ok(QueuePairState::Reset),
            1 => Ok(QueuePairState::Initialize),
            2 => Ok(QueuePairState::ReadyToReceive),
            3 => Ok(QueuePairState::ReadyToSend),
            4 => Ok(QueuePairState::SendQueueDrained),
            5 => Ok(QueuePairState::SendQueueError),
            6 => Ok(QueuePairState::Error),
            7 => Ok(QueuePairState::Unknown),
            _ => Err(()),
        }
    }
}

impl TryFromSpecImpl<u32> for QueuePairState {
    open spec fn obeys_try_from_spec() -> bool {
        true
    }

    open spec fn try_from_spec(value: u32) -> Result<Self, ()> {
        match QueuePairState::decode(value) {
            Some(x) => Ok(x),
            None => Err(()),
        }
    }
}

/// Reading the wire value of a queue pair state gives that queue pair state back, and a wire value
/// that reads as a queue pair state is the wire value of what it reads as: no other
/// value is accepted.
pub proof fn lemma_state_round_trip(x: QueuePairState, value: u32)
    ensures
        QueuePairState::decode(x.raw()) == Some(x),
        QueuePairState::decode(value) is Some ==> QueuePairState::decode(value)->0.raw() == value,
{
}
/// What a queue pair is created with. The resources are named, not owned:
/// the queue pair takes its hold on them when it is created.
#[derive(Debug, Clone, Copy, PartialEq, Eq)]
pub struct QueuePairOptions {
    pub user_data: usize,
    pub send_cq: Option<Borrowed>,
    pub recv_cq: Option<Borrowed>,
    pub pd: Option<Borrowed>,
    pub srq: Option<Borrowed>,
    pub qp_type: u32,
    pub sq_sig_all: i32,
    pub cap: QueuePairCapacity,
    pub comp_mask: u32,
}

impl QueuePairOptions {
    /// Nothing named, every number zero.
    pub open spec fn unset() -> QueuePairOptions {
        QueuePairOptions {
            user_data: 0,
            send_cq: None,
            recv_cq: None,
            pd: None,
            srq: None,
            qp_type: 0,
            sq_sig_all: 0,
            cap: QueuePairCapacity {
                max_send_wr: 0,
                max_recv_wr: 0,
                max_send_sge: 0,
                max_recv_sge: 0,
                max_inline_data: 0,
            },
            comp_mask: 0,
        }
    }

    /// What the queue pair will depend on: its protection domain, its send
    /// queue, its receive queue and its shared receive queue, as far as they
    /// are named. It lets go of them in this order.
    pub open spec fn parents(&self) -> Parents {
        Parents {
            first: name_of(self.pd),
            second: name_of(self.send_cq),
            third: name_of(self.recv_cq),
            fourth: name_of(self.srq),
        }
    }

    /// Sets the tag that the queue pair carries.
    pub fn user_data(&mut self, user_data: usize) -> (r: &mut Self)
        ensures
            *r == (QueuePairOptions { user_data, ..*old(self) }),
            *final(self) == *final(r),
    {
        self.user_data = user_data;
        self
    }

    /// Names the queue that takes the completions of sends.
    pub fn send_cq(&mut self, send_cq: &CompletionQueue) -> (r: &mut Self)
        ensures
            *r == (QueuePairOptions {
                send_cq: Some(
                    Borrowed { id: send_cq.handle.id(), raw: send_cq.handle.ffi_ptr() },
                ),
                ..*old(self)
            }),
            *final(self) == *final(r),
    {
        self.send_cq = Some(send_cq.handle.borrow());
        self
    }

    /// Names the queue that takes the completions of receives. A queue pair
    /// receives through its own queue or through a shared one: a shared
    /// receive queue that was named is dropped.
    pub fn recv_cq(&mut self, recv_cq: &CompletionQueue) -> (r: &mut Self)
        ensures
            *r == (QueuePairOptions {
                recv_cq: Some(
                    Borrowed { id: recv_cq.handle.id(), raw: recv_cq.handle.ffi_ptr() },
                ),
                srq: None,
                ..*old(self)
            }),
            *final(self) == *final(r),
    {
        self.srq = None;
        self.recv_cq = Some(recv_cq.handle.borrow());
        self
    }

    /// Sets the transport.
    pub fn qp_type(&mut self, qp_type: QueuePairType) -> (r: &mut Self)
        ensures
            *r == (QueuePairOptions { qp_type: qp_type.raw(), ..*old(self) }),
            *final(self) == *final(r),
    {
        self.qp_type = qp_type.to_c_uint();
        self
    }

    /// Sets whether every send produces a completion.
    pub fn sq_sig_all(&mut self, sq_sig_all: bool) -> (r: &mut Self)
        ensures
            *r == (QueuePairOptions {
                sq_sig_all: if sq_sig_all {
                    1i32
                } else {
                    0i32
                },
                ..*old(self)
            }),
            *final(self) == *final(r),
    {
        self.sq_sig_all = if sq_sig_all {
            1
        } else {
            0
        };
        self
    }

    /// Sets the capacity.
    pub fn cap(&mut self, cap: QueuePairCapacity) -> (r: &mut Self)
        ensures
            *r == (QueuePairOptions { cap, ..*old(self) }),
            *final(self) == *final(r),
    {
        self.cap = cap;
        self
    }

    /// Names the protection domain, and tells the provider that one is given.
    pub fn pd(&mut self, pd: &ProtectionDomain) -> (r: &mut Self)
        ensures
            *r == (QueuePairOptions {
                pd: Some(Borrowed { id: pd.handle.id(), raw: pd.handle.ffi_ptr() }),
                comp_mask: old(self).comp_mask | QP_INIT_ATTR_PD,
                ..*old(self)
            }),
            *final(self) == *final(r),
    {
        self.pd = Some(pd.handle.borrow());
        self.comp_mask = self.comp_mask | QP_INIT_ATTR_PD;
        self
    }

    /// Names the shared receive queue. A queue pair receives through its own
    /// queue or through a shared one: a receive queue that was named is
    /// dropped.
    pub fn srq(&mut self, srq: &SharedReceiveQueue) -> (r: &mut Self)
        ensures
            *r == (QueuePairOptions {
                srq: Some(Borrowed { id: srq.handle.id(), raw: srq.handle.ffi_ptr() }),
                recv_cq: None,
                ..*old(self)
            }),
            *final(self) == *final(r),
    {
        self.recv_cq = None;
        self.srq = Some(srq.handle.borrow());
        self
    }
}

impl Default for QueuePairOptions {
    /// Nothing named, every number zero.
    fn default() -> (r: Self)
        ensures
            r == QueuePairOptions::unset(),
    {
        QueuePairOptions {
            user_data: 0,
            send_cq: None,
            recv_cq: None,
            pd: None,
            srq: None,
            qp_type: 0,
            sq_sig_all: 0,
            cap: QueuePairCapacity::default(),
            comp_mask: 0,
        }
    }
}

fn id_of(b: Option<Borrowed>) -> (r: Option<ResourceId>)
    ensures
        r == name_of(b),
{
    match b {
        Some(b) => Some(b.id),
        None => None,
    }
}

/// An owner's hold on a queue pair.
pub struct QueuePair {
    pub handle: Handle,
    pub qp_num: u32,
    pub user_data: usize,
    pub send_cq: Option<Borrowed>,
    pub recv_cq: Option<Borrowed>,
}

impl QueuePair {
    /// The options to start from: nothing named, every number zero.
    pub fn options() -> (r: QueuePairOptions)
        ensures
            r == QueuePairOptions::unset(),
    {
        QueuePairOptions::default()
    }

    /// Enters the queue pair that the provider returned as `raw`, with the
    /// OS error code `errno` current after the call and the number `qp_num`
    /// that the provider gave it, under the resources that `options` names,
    /// see [`creation`]. On success the new queue pair has one owner and
    /// keeps every resource that `options` names alive.
    pub fn create(
        table: &mut ResourceTable,
        options: QueuePairOptions,
        raw: usize,
        errno: i32,
        qp_num: u32,
    ) -> (r: Result<Self, Error>)
        requires
            old(table).wf(),
        ensures
            final(table).wf(),
            creation(
                old(table)@,
                final(table)@,
                ResourceKind::QueuePair,
                raw,
                options.user_data,
                errno,
                "failed to create queue pair",
                options.parents(),
                match r {
                    Ok(x) => Ok(x.handle.id()),
                    Err(e) => Err(e),
                },
            ),
            r is Ok ==> r->Ok_0.handle.ffi_ptr() == raw && r->Ok_0.qp_num == qp_num
                && r->Ok_0.user_data == options.user_data && r->Ok_0.send_cq == options.send_cq
                && r->Ok_0.recv_cq == options.recv_cq,
    {
        let parents = Parents {
            first: id_of(options.pd),
            second: id_of(options.send_cq),
            third: id_of(options.recv_cq),
            fourth: id_of(options.srq),
        };
        match Handle::create(
            table,
            ResourceKind::QueuePair,
            raw,
            options.user_data,
            errno,
            "failed to create queue pair",
            parents,
        ) {
            Ok(handle) => Ok(
                QueuePair {
                    handle,
                    qp_num,
                    user_data: options.user_data,
                    send_cq: options.send_cq,
                    recv_cq: options.recv_cq,
                },
            ),
            Err(e) => Err(e),
        }
    }

    /// The number of the queue pair. It is valid until the queue pair is
    /// destroyed.
    pub fn qp_num(&self) -> (r: u32)
        ensures
            r == self.qp_num,
    {
        self.qp_num
    }

    /// The tag that the queue pair was created with.
    pub fn user_data(&self) -> (r: usize)
        ensures
            r == self.user_data,
    {
        self.user_data
    }

    /// Sorts the provider's answer to a post of the chain of send requests
    /// that starts at `send_wr`: the status `ret`, the OS error code `errno`
    /// current after the call, which was zero before it, and the position
    /// `first_bad` of the first request that the provider refused, if it
    /// named one. Zero is success. Otherwise the failure carries `errno` if it
    /// is set, else the magnitude of `ret`, and the position of the first
    /// refused request if it lies inside the chain.
    ///
    /// A post does not wait for the requests to complete: completions arrive
    /// at the completion queue.
    pub fn post_send(
        &self,
        send_wr: &SendRequest,
        ret: i32,
        errno: i32,
        first_bad: Option<usize>,
    ) -> (r: Result<(), Error>)
        ensures
            ret == 0 ==> r == Ok::<(), Error>(()),
            ret != 0 ==> r == Err::<(), Error>(
                Error::Post {
                    code: post_code(ret, errno),
                    first_bad: post_position(send_wr.chain_len(), first_bad),
                },
            ),
    {
        let position = match first_bad {
            Some(i) => if send_wr.has_position(i) {
                Some(i)
            } else {
                None
            },
            None => None,
        };
        post_status(ret, errno, position)
    }

    /// Sorts the provider's answer to a post of the chain of receive
    /// requests that starts at `recv_wr`, as [`Self::post_send`] does for
    /// sends.
    pub fn post_recv(
        &self,
        recv_wr: &RecvRequest,
        ret: i32,
        errno: i32,
        first_bad: Option<usize>,
    ) -> (r: Result<(), Error>)
        ensures
            ret == 0 ==> r == Ok::<(), Error>(()),
            ret != 0 ==> r == Err::<(), Error>(
                Error::Post {
                    code: post_code(ret, errno),
                    first_bad: post_position(recv_wr.chain_len(), first_bad),
                },
            ),
    {
        let position = match first_bad {
            Some(i) => if recv_wr.has_position(i) {
                Some(i)
            } else {
                None
            },
            None => None,
        };
        post_status(ret, errno, position)
    }

    /// Sorts the provider's answer `ret` to a request for the transition that
    /// `options` describes. Whether the transition is allowed from the state
    /// that the queue pair is in is the provider's to decide: zero is
    /// success, any other status is the OS error code of an operation
    /// failure.
    pub fn modify(&self, options: ModifyOptions, ret: i32) -> (r: Result<(), Error>)
        ensures
            ret == 0 ==> r == Ok::<(), Error>(()),
            ret != 0 ==> r == Err::<(), Error>(Error::Operation { code: ret }),
    {
        check_status(ret)
    }

    /// Sorts the provider's answer to a query for the attributes that
    /// `options` asks for: the status `ret`, and the state `qp_state` and the
    /// capacity `cap` as the provider filled them in. Zero is success: the
    /// result holds what the provider filled in, under the mask that was
    /// asked with. Any other status is the OS error code of an operation
    /// failure.
    pub fn query(&self, options: QueryOptions, ret: i32, qp_state: u32, cap: QueuePairCapacity) -> (r:
        Result<QueuePairAttr, Error>)
        ensures
            ret == 0 ==> r == Ok::<QueuePairAttr, Error>(
                QueuePairAttr { mask: options.mask, qp_state, cap },
            ),
            ret != 0 ==> r == Err::<QueuePairAttr, Error>(Error::Operation { code: ret }),
    {
        match check_status(ret) {
            Ok(()) => Ok(QueuePairAttr { mask: options.mask, qp_state, cap }),
            Err(e) => Err(e),
        }
    }

    /// The queue that takes the completions of sends, if one was named.
    pub fn send_cq(&self) -> (r: Option<Borrowed>)
        ensures
            r == self.send_cq,
    {
        self.send_cq
    }

    /// The queue that takes the completions of receives, if one was named.
    pub fn recv_cq(&self) -> (r: Option<Borrowed>)
        ensures
            r == self.recv_cq,
    {
        self.recv_cq
    }

    /// The provider's handle of the queue pair, as an address.
    pub fn ffi_ptr(&self) -> (r: usize)
        ensures
            r == self.handle.ffi_ptr(),
    {
        self.handle.ffi_ptr()
    }

    /// Makes one more owner of the queue pair, see [`sharing`].
    pub fn try_clone(&self, table: &mut ResourceTable) -> (r: Result<Self, Error>)
        requires
            old(table).wf(),
        ensures
            final(table).wf(),
            sharing(old(table)@, final(table)@, self.handle.id(), failure(r)),
            r is Ok ==> r->Ok_0.handle.id() == self.handle.id() && r->Ok_0.handle.ffi_ptr()
                == self.handle.ffi_ptr()
                && r->Ok_0.qp_num == self.qp_num
                && r->Ok_0.user_data == self.user_data
                && r->Ok_0.send_cq == self.send_cq
                && r->Ok_0.recv_cq == self.recv_cq,
    {
        match self.handle.try_clone(table) {
            Ok(handle) => Ok(QueuePair { handle, qp_num: self.qp_num, user_data: self.user_data, send_cq: self.send_cq, recv_cq: self.recv_cq }),
            Err(e) => Err(e),
        }
    }

    /// Gives up this owner's hold on the queue pair, see [`releasing`]. The
    /// teardown calls that are returned are owed to the provider, in their
    /// order.
    pub fn release(self, table: &mut ResourceTable) -> (r: Result<Vec<Teardown>, Error>)
        requires
            old(table).wf(),
        ensures
            final(table).wf(),
            releasing(old(table)@, final(table)@, self.handle.id(), owed(r)),
    {
        self.handle.release(table)
    }
}

/// The values of the attributes of a queue pair, as the provider takes them.
/// What they mean depends on the mask that they come with.
#[derive(Debug, Clone, Copy)]
pub struct Attributes {
    pub qp_state: u32,
    pub pkey_index: u16,
    pub port_num: u8,
    pub qkey: u32,
    pub qp_access_flags: u32,
    pub path_mtu: u32,
    pub dest_qp_num: u32,
    pub rq_psn: u32,
    pub max_dest_rd_atomic: u8,
    pub min_rnr_timer: u8,
    pub ah_attr: AddressHandleOptions,
    pub timeout: u8,
    pub retry_cnt: u8,
    pub rnr_retry: u8,
    pub sq_psn: u32,
    pub max_rd_atomic: u8,
}

impl Attributes {
    /// Every value zero.
    pub open spec fn zeroed() -> Attributes {
        Attributes {
            qp_state: 0,
            pkey_index: 0,
            port_num: 0,
            qkey: 0,
            qp_access_flags: 0,
            path_mtu: 0,
            dest_qp_num: 0,
            rq_psn: 0,
            max_dest_rd_atomic: 0,
            min_rnr_timer: 0,
            ah_attr: AddressHandleOptions {
                dest_lid: 0,
                service_level: 0,
                port_num: 0,
                global_route: None,
            },
            timeout: 0,
            retry_cnt: 0,
            rnr_retry: 0,
            sq_psn: 0,
            max_rd_atomic: 0,
        }
    }
}

/// The attributes that a transition sets: the values, and the mask that
/// names which of them have been set. Only what the mask names is meant for
/// the provider.
#[derive(Debug, Clone, Copy)]
pub struct ModifyOptions {
    pub mask: u32,
    pub attr: Attributes,
}

impl Default for ModifyOptions {
    /// Nothing set.
    fn default() -> (r: Self)
        ensures
            r == ModifyOptions::unset(),
    {
        ModifyOptions {
            mask: 0,
            attr: Attributes {
                qp_state: 0,
                pkey_index: 0,
                port_num: 0,
                qkey: 0,
                qp_access_flags: 0,
                path_mtu: 0,
                dest_qp_num: 0,
                rq_psn: 0,
                max_dest_rd_atomic: 0,
                min_rnr_timer: 0,
                ah_attr: AddressHandleOptions::default(),
                timeout: 0,
                retry_cnt: 0,
                rnr_retry: 0,
                sq_psn: 0,
                max_rd_atomic: 0,
            },
        }
    }
}

impl ModifyOptions {
    /// Nothing set.
    pub open spec fn unset() -> ModifyOptions {
        ModifyOptions { mask: 0, attr: Attributes::zeroed() }
    }

    /// Whether the attribute with the mask bit `bit` has been set.
    pub open spec fn has(&self, bit: u32) -> bool {
        self.mask & bit != 0
    }

    /// Whether the attribute with the mask bit `bit` has been set.
    pub fn is_set(&self, bit: u32) -> (r: bool)
        ensures
            r == self.has(bit),
    {
        self.mask & bit != 0
    }

    /// The mask that is handed to the provider with the values.
    pub fn mask(&self) -> (m: u32)
        ensures
            m == self.mask,
    {
        self.mask
    }

    /// Sets the state to move to.
    pub fn qp_state(&mut self, qp_state: QueuePairState) -> (r: &mut Self)
        ensures
            r.mask == old(self).mask | QP_STATE,
            r.attr == (Attributes { qp_state: qp_state.raw(), ..old(self).attr }),
            *final(self) == *final(r),
    {
        self.attr.qp_state = qp_state.to_c_uint();
        self.mask = self.mask | QP_STATE;
        self
    }

    /// Sets the index of the partition key.
    pub fn pkey_index(&mut self, pkey_index: u16) -> (r: &mut Self)
        ensures
            r.mask == old(self).mask | QP_PKEY_INDEX,
            r.attr == (Attributes { pkey_index: pkey_index, ..old(self).attr }),
            *final(self) == *final(r),
    {
        self.attr.pkey_index = pkey_index;
        self.mask = self.mask | QP_PKEY_INDEX;
        self
    }

    /// Sets the local port.
    pub fn port_num(&mut self, port_num: u8) -> (r: &mut Self)
        ensures
            r.mask == old(self).mask | QP_PORT,
            r.attr == (Attributes { port_num: port_num, ..old(self).attr }),
            *final(self) == *final(r),
    {
        self.attr.port_num = port_num;
        self.mask = self.mask | QP_PORT;
        self
    }

    /// Sets the queue key.
    pub fn qkey(&mut self, qkey: u32) -> (r: &mut Self)
        ensures
            r.mask == old(self).mask | QP_QKEY,
            r.attr == (Attributes { qkey: qkey, ..old(self).attr }),
            *final(self) == *final(r),
    {
        self.attr.qkey = qkey;
        self.mask = self.mask | QP_QKEY;
        self
    }

    /// Sets what peers may do.
    pub fn qp_access_flags(&mut self, qp_access_flags: AccessFlags) -> (r: &mut Self)
        ensures
            r.mask == old(self).mask | QP_ACCESS_FLAGS,
            r.attr == (Attributes { qp_access_flags: qp_access_flags.bits, ..old(self).attr }),
            *final(self) == *final(r),
    {
        self.attr.qp_access_flags = qp_access_flags.to_c_uint();
        self.mask = self.mask | QP_ACCESS_FLAGS;
        self
    }

    /// Sets the MTU of the path.
    pub fn path_mtu(&mut self, path_mtu: Mtu) -> (r: &mut Self)
        ensures
            r.mask == old(self).mask | QP_PATH_MTU,
            r.attr == (Attributes { path_mtu: path_mtu.raw(), ..old(self).attr }),
            *final(self) == *final(r),
    {
        self.attr.path_mtu = path_mtu.to_c_uint();
        self.mask = self.mask | QP_PATH_MTU;
        self
    }

    /// Sets the number of the remote queue pair.
    pub fn dest_qp_num(&mut self, dest_qp_num: u32) -> (r: &mut Self)
        ensures
            r.mask == old(self).mask | QP_DEST_QPN,
            r.attr == (Attributes { dest_qp_num: dest_qp_num, ..old(self).attr }),
            *final(self) == *final(r),
    {
        self.attr.dest_qp_num = dest_qp_num;
        self.mask = self.mask | QP_DEST_QPN;
        self
    }

    /// Sets the first packet sequence number to receive.
    pub fn rq_psn(&mut self, rq_psn: u32) -> (r: &mut Self)
        ensures
            r.mask == old(self).mask | QP_RQ_PSN,
            r.attr == (Attributes { rq_psn: rq_psn, ..old(self).attr }),
            *final(self) == *final(r),
    {
        self.attr.rq_psn = rq_psn;
        self.mask = self.mask | QP_RQ_PSN;
        self
    }

    /// Sets how many reads and atomics the queue pair answers at a time.
    pub fn max_dest_rd_atomic(&mut self, max_dest_rd_atomic: u8) -> (r: &mut Self)
        ensures
            r.mask == old(self).mask | QP_MAX_DEST_RD_ATOMIC,
            r.attr == (Attributes { max_dest_rd_atomic: max_dest_rd_atomic, ..old(self).attr }),
            *final(self) == *final(r),
    {
        self.attr.max_dest_rd_atomic = max_dest_rd_atomic;
        self.mask = self.mask | QP_MAX_DEST_RD_ATOMIC;
        self
    }

    /// Sets the shortest wait before a peer retries a receive that was not ready.
    pub fn min_rnr_timer(&mut self, min_rnr_timer: u8) -> (r: &mut Self)
        ensures
            r.mask == old(self).mask | QP_MIN_RNR_TIMER,
            r.attr == (Attributes { min_rnr_timer: min_rnr_timer, ..old(self).attr }),
            *final(self) == *final(r),
    {
        self.attr.min_rnr_timer = min_rnr_timer;
        self.mask = self.mask | QP_MIN_RNR_TIMER;
        self
    }

    /// Sets how the peer is reached.
    pub fn ah_attr(&mut self, ah_attr: AddressHandleOptions) -> (r: &mut Self)
        ensures
            r.mask == old(self).mask | QP_AV,
            r.attr == (Attributes { ah_attr: ah_attr, ..old(self).attr }),
            *final(self) == *final(r),
    {
        self.attr.ah_attr = ah_attr;
        self.mask = self.mask | QP_AV;
        self
    }

    /// Sets the wait for an acknowledgement.
    pub fn timeout(&mut self, timeout: u8) -> (r: &mut Self)
        ensures
            r.mask == old(self).mask | QP_TIMEOUT,
            r.attr == (Attributes { timeout: timeout, ..old(self).attr }),
            *final(self) == *final(r),
    {
        self.attr.timeout = timeout;
        self.mask = self.mask | QP_TIMEOUT;
        self
    }

    /// Sets how often a send is retried.
    pub fn retry_cnt(&mut self, retry_cnt: u8) -> (r: &mut Self)
        ensures
            r.mask == old(self).mask | QP_RETRY_CNT,
            r.attr == (Attributes { retry_cnt: retry_cnt, ..old(self).attr }),
            *final(self) == *final(r),
    {
        self.attr.retry_cnt = retry_cnt;
        self.mask = self.mask | QP_RETRY_CNT;
        self
    }

    /// Sets how often a send is retried when the receiver was not ready.
    pub fn rnr_retry(&mut self, rnr_retry: u8) -> (r: &mut Self)
        ensures
            r.mask == old(self).mask | QP_RNR_RETRY,
            r.attr == (Attributes { rnr_retry: rnr_retry, ..old(self).attr }),
            *final(self) == *final(r),
    {
        self.attr.rnr_retry = rnr_retry;
        self.mask = self.mask | QP_RNR_RETRY;
        self
    }

    /// Sets the first packet sequence number to send.
    pub fn sq_psn(&mut self, sq_psn: u32) -> (r: &mut Self)
        ensures
            r.mask == old(self).mask | QP_SQ_PSN,
            r.attr == (Attributes { sq_psn: sq_psn, ..old(self).attr }),
            *final(self) == *final(r),
    {
        self.attr.sq_psn = sq_psn;
        self.mask = self.mask | QP_SQ_PSN;
        self
    }

    /// Sets how many reads and atomics the queue pair has outstanding at a time.
    pub fn max_rd_atomic(&mut self, max_rd_atomic: u8) -> (r: &mut Self)
        ensures
            r.mask == old(self).mask | QP_MAX_QP_RD_ATOMIC,
            r.attr == (Attributes { max_rd_atomic: max_rd_atomic, ..old(self).attr }),
            *final(self) == *final(r),
    {
        self.attr.max_rd_atomic = max_rd_atomic;
        self.mask = self.mask | QP_MAX_QP_RD_ATOMIC;
        self
    }
}

/// Whether `bit` is the mask bit of an attribute.
pub open spec fn attr_bit(bit: u32) -> bool {
    bit == QP_STATE
    || bit == QP_PKEY_INDEX
    || bit == QP_PORT
    || bit == QP_QKEY
    || bit == QP_ACCESS_FLAGS
    || bit == QP_PATH_MTU
    || bit == QP_DEST_QPN
    || bit == QP_RQ_PSN
    || bit == QP_MAX_DEST_RD_ATOMIC
    || bit == QP_MIN_RNR_TIMER
    || bit == QP_AV
    || bit == QP_TIMEOUT
    || bit == QP_RETRY_CNT
    || bit == QP_RNR_RETRY
    || bit == QP_SQ_PSN
    || bit == QP_MAX_QP_RD_ATOMIC
    || bit == QP_CAP
}

/// A mask names exactly what has been set: setting the attribute with the
/// bit `a` makes a mask name that attribute and changes nothing for any other
/// attribute; a mask without bits names none.
pub proof fn lemma_mask_tracks(mask: u32, a: u32, b: u32)
    by (bit_vector)
    requires
        attr_bit(a),
        attr_bit(b),
    ensures
        ((mask | a) & b != 0) == (a == b || mask & b != 0),
        0u32 & b == 0,
{
}

/// Which attributes a query asks for.
#[derive(Debug, Clone, Copy, PartialEq, Eq)]
pub struct QueryOptions {
    pub mask: u32,
}

impl Default for QueryOptions {
    /// Nothing asked for.
    fn default() -> (r: Self)
        ensures
            r.mask == 0,
    {
        QueryOptions { mask: 0 }
    }
}

impl QueryOptions {
    /// Asks for the capacity.
    pub fn cap(&mut self) -> (r: &mut Self)
        ensures
            r.mask == old(self).mask | QP_CAP,
            *final(self) == *final(r),
    {
        self.mask = self.mask | QP_CAP;
        self
    }

    /// Asks for the state.
    pub fn qp_state(&mut self) -> (r: &mut Self)
        ensures
            r.mask == old(self).mask | QP_STATE,
            *final(self) == *final(r),
    {
        self.mask = self.mask | QP_STATE;
        self
    }
}

/// The answer to a query: the mask that was asked with, and what the
/// provider filled in. Only what the mask names is meaningful, and only that
/// is handed out.
#[derive(Debug, Clone, Copy, PartialEq, Eq)]
pub struct QueuePairAttr {
    pub mask: u32,
    pub qp_state: u32,
    pub cap: QueuePairCapacity,
}

impl QueuePairAttr {
    /// Whether the state can be read: it was not asked for, or its wire value
    /// stands for a state.
    pub open spec fn state_readable(&self) -> bool {
        self.mask & QP_STATE != 0 ==> QueuePairState::decode(self.qp_state) is Some
    }

    /// Decides [`Self::state_readable`].
    pub fn is_state_readable(&self) -> (b: bool)
        ensures
            b == self.state_readable(),
    {
        self.mask & QP_STATE == 0 || QueuePairState::try_from(self.qp_state).is_ok()
    }

    /// The capacity: present exactly where it was asked for.
    pub fn cap(&self) -> (r: Option<&QueuePairCapacity>)
        ensures
            r is Some == (self.mask & QP_CAP != 0),
            r is Some ==> *r->0 == self.cap,
    {
        if self.mask & QP_CAP != 0 {
            Some(&self.cap)
        } else {
            None
        }
    }

    /// The state: present exactly where it was asked for. Where it was asked
    /// for, its wire value must stand for a state, see
    /// [`Self::state_readable`].
    pub fn qp_state(&self) -> (r: Option<QueuePairState>)
        requires
            self.state_readable(),
        ensures
            r is Some == (self.mask & QP_STATE != 0),
            r is Some ==> r == QueuePairState::decode(self.qp_state),
    {
        if self.mask & QP_STATE == 0 {
            None
        } else {
            match QueuePairState::try_from(self.qp_state) {
                Ok(s) => Some(s),
                Err(_) => None,
            }
        }
    }
}

/// A query that asks for the state alone names the state and not the
/// capacity; one that asks for both names both; one that asks for the
/// capacity alone names the capacity and not the state.
pub proof fn lemma_query_masks()
    ensures
        (0u32 | QP_STATE) & QP_STATE != 0,
        (0u32 | QP_STATE) & QP_CAP == 0,
        ((0u32 | QP_STATE) | QP_CAP) & QP_STATE != 0,
        ((0u32 | QP_STATE) | QP_CAP) & QP_CAP != 0,
        ((0u32 | QP_CAP) | QP_STATE) & QP_STATE != 0,
        ((0u32 | QP_CAP) | QP_STATE) & QP_CAP != 0,
        (0u32 | QP_CAP) & QP_CAP != 0,
        (0u32 | QP_CAP) & QP_STATE == 0,
{
    lemma_mask_tracks(0, QP_STATE, QP_STATE);
    lemma_mask_tracks(0, QP_STATE, QP_CAP);
    lemma_mask_tracks(0, QP_CAP, QP_CAP);
    lemma_mask_tracks(0, QP_CAP, QP_STATE);
    lemma_mask_tracks(0u32 | QP_STATE, QP_CAP, QP_STATE);
    lemma_mask_tracks(0u32 | QP_STATE, QP_CAP, QP_CAP);
    lemma_mask_tracks(0u32 | QP_CAP, QP_STATE, QP_STATE);
    lemma_mask_tracks(0u32 | QP_CAP, QP_STATE, QP_CAP);
}

} // verus!
