//! The plain data that the table keeps about a resource.
use vstd::prelude::*;

verus! {

/// The name of a slot of the table at one point of its life. A name is never
/// given out twice: when the resource in a slot is destroyed the slot moves on
/// to its next generation, and a slot in its last generation is never filled.
#[derive(Clone, Copy, Debug, PartialEq, Eq, Structural)]
pub struct ResourceId {
    pub index: u32,
    pub generation: u32,
}

/// What a record of the table stands for.
#[derive(Clone, Copy, Debug, PartialEq, Eq, Structural)]
pub enum ResourceKind {
    Context,
    ProtectionDomain,
    CompChannel,
    DeviceMemory,
    CompletionQueue,
    MemoryRegion,
    MemoryWindow,
    AddressHandle,
    SharedReceiveQueue,
    QueuePair,
}

impl ResourceKind {
    /// The depth of the kind in the dependency order: a resource depends only
    /// on resources of smaller rank.
    pub open spec fn rank(self) -> nat {
        match self {
            ResourceKind::Context => 0,
            ResourceKind::ProtectionDomain => 1,
            ResourceKind::CompChannel => 1,
            ResourceKind::DeviceMemory => 1,
            ResourceKind::CompletionQueue => 2,
            ResourceKind::MemoryRegion => 2,
            ResourceKind::MemoryWindow => 2,
            ResourceKind::AddressHandle => 2,
            ResourceKind::SharedReceiveQueue => 3,
            ResourceKind::QueuePair => 4,
        }
    }

    /// The depth of the kind in the dependency order.
    pub fn depth(self) -> (r: u8)
        ensures
            r == self.rank(),
    {
        match self {
            ResourceKind::Context => 0,
            ResourceKind::ProtectionDomain => 1,
            ResourceKind::CompChannel => 1,
            ResourceKind::DeviceMemory => 1,
            ResourceKind::CompletionQueue => 2,
            ResourceKind::MemoryRegion => 2,
            ResourceKind::MemoryWindow => 2,
            ResourceKind::AddressHandle => 2,
            ResourceKind::SharedReceiveQueue => 3,
            ResourceKind::QueuePair => 4,
        }
    }
}

/// Whether a resource of kind `kind` may hold, in its dependency position `k`,
/// a resource of kind `dep`, or nothing where `dep` is `None`.
///
/// A completion queue holds its channel, if it has one, and its context. A
/// queue pair holds, each optionally, its protection domain, its send queue,
/// its receive queue and its shared receive queue. Every other kind but the
/// context holds exactly its parent.
pub open spec fn link_ok(kind: ResourceKind, k: int, dep: Option<ResourceKind>) -> bool {
    match kind {
        ResourceKind::Context => dep is None,
        ResourceKind::ProtectionDomain | ResourceKind::CompChannel | ResourceKind::DeviceMemory => {
            if k == 0 {
                dep == Some(ResourceKind::Context)
            } else {
                dep is None
            }
        },
        ResourceKind::CompletionQueue => {
            if k == 0 {
                dep is None || dep == Some(ResourceKind::CompChannel)
            } else if k == 1 {
                dep == Some(ResourceKind::Context)
            } else {
                dep is None
            }
        },
        ResourceKind::MemoryRegion
        | ResourceKind::MemoryWindow
        | ResourceKind::AddressHandle
        | ResourceKind::SharedReceiveQueue => {
            if k == 0 {
                dep == Some(ResourceKind::ProtectionDomain)
            } else {
                dep is None
            }
        },
        ResourceKind::QueuePair => {
            if k == 0 {
                dep is None || dep == Some(ResourceKind::ProtectionDomain)
            } else if k == 1 || k == 2 {
                dep is None || dep == Some(ResourceKind::CompletionQueue)
            } else {
                dep is None || dep == Some(ResourceKind::SharedReceiveQueue)
            }
        },
    }
}

/// Decides [`link_ok`].
pub fn link_allowed(kind: ResourceKind, k: u8, dep: Option<ResourceKind>) -> (b: bool)
    ensures
        b == link_ok(kind, k as int, dep),
{
    match kind {
        ResourceKind::Context => dep.is_none(),
        ResourceKind::ProtectionDomain | ResourceKind::CompChannel | ResourceKind::DeviceMemory => {
            match dep {
                Some(d) => k == 0 && d == ResourceKind::Context,
                None => k != 0,
            }
        },
        ResourceKind::CompletionQueue => {
            match dep {
                Some(d) => (k == 0 && d == ResourceKind::CompChannel) || (k == 1 && d
                    == ResourceKind::Context),
                None => k != 1,
            }
        },
        ResourceKind::MemoryRegion
        | ResourceKind::MemoryWindow
        | ResourceKind::AddressHandle
        | ResourceKind::SharedReceiveQueue => {
            match dep {
                Some(d) => k == 0 && d == ResourceKind::ProtectionDomain,
                None => k != 0,
            }
        },
        ResourceKind::QueuePair => {
            match dep {
                Some(d) => {
                    if k == 0 {
                        d == ResourceKind::ProtectionDomain
                    } else if k == 1 || k == 2 {
                        d == ResourceKind::CompletionQueue
                    } else {
                        d == ResourceKind::SharedReceiveQueue
                    }
                },
                None => true,
            }
        },
    }
}

/// A resource depends only on resources of smaller rank.
pub proof fn lemma_link_descends(kind: ResourceKind, k: int, dep: ResourceKind)
    requires
        link_ok(kind, k, Some(dep)),
    ensures
        dep.rank() < kind.rank(),
{
}

/// Whether the dependency `d` is the slot `p`.
pub open spec fn hit(d: Option<u32>, p: int) -> nat {
    match d {
        Some(x) => if x as int == p {
            1
        } else {
            0
        },
        None => 0,
    }
}

/// The slots that a resource depends on, in the order in which it lets go of
/// them when it is destroyed.
#[derive(Clone, Copy, Debug, PartialEq, Eq)]
pub struct Links {
    pub d0: Option<u32>,
    pub d1: Option<u32>,
    pub d2: Option<u32>,
    pub d3: Option<u32>,
}

impl Links {
    /// How many of the four positions hold the slot `p`.
    pub open spec fn count(self, p: int) -> nat {
        hit(self.d0, p) + hit(self.d1, p) + hit(self.d2, p) + hit(self.d3, p)
    }

    /// No dependency at all.
    pub open spec fn spec_none() -> Links {
        Links { d0: None, d1: None, d2: None, d3: None }
    }
}

/// The resources that a new resource is to depend on, by name.
#[derive(Clone, Copy, Debug, PartialEq, Eq)]
pub struct Parents {
    pub first: Option<ResourceId>,
    pub second: Option<ResourceId>,
    pub third: Option<ResourceId>,
    pub fourth: Option<ResourceId>,
}

/// The slot of a named parent.
pub open spec fn slot_of(p: Option<ResourceId>) -> Option<u32> {
    match p {
        Some(id) => Some(id.index),
        None => None,
    }
}

impl Parents {
    /// The slots of the named parents.
    pub open spec fn links(self) -> Links {
        Links { d0: slot_of(self.first), d1: slot_of(self.second), d2: slot_of(self.third), d3: slot_of(self.fourth) }
    }
}

/// What the table knows of a live resource.
#[derive(Clone, Copy, Debug, PartialEq, Eq)]
pub struct Record {
    pub kind: ResourceKind,
    /// The provider's handle. Never null.
    pub raw: usize,
    /// The tag that the creator of the resource attached to it.
    pub user_data: usize,
    /// How many owner handles are outstanding.
    pub handles: u64,
    /// How many dependency positions of live resources hold this one.
    pub children: u64,
    pub deps: Links,
    /// Completion events acknowledged so far and not yet reported to the
    /// provider. Only a completion queue counts any.
    pub acks: u32,
}

/// One provider teardown call that is owed: the resource of kind `kind` with
/// the provider handle `raw` is to be destroyed. For a completion queue,
/// `acks` events are to be acknowledged to the provider first.
#[derive(Clone, Copy, Debug, PartialEq, Eq)]
pub struct Teardown {
    pub kind: ResourceKind,
    pub raw: usize,
    pub acks: u32,
}

} // verus!
