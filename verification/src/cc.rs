//! Completion channels.
use crate::cq::CompletionQueue;
use crate::ctx::Context;
use crate::error::custom_error;
use crate::model::TableModel;
use crate::utils::{addr_of, name_at, ptr_from_addr};
use crate::error::Error;
use crate::handle::{creation, failure, owed, releasing, sharing, Handle};
use crate::resource::{Parents, ResourceId, ResourceKind, Teardown};
use crate::table::ResourceTable;
use vstd::prelude::*;

verus! {

/// An owner's hold on a completion channel: the source of the events of the
/// completion queues that are bound to it.
///
/// The channel keeps none of its queues alive. The table holds, with the
/// channel, the registry of the names of the live queues bound to it; a queue
/// enters it when it is created and leaves it when it is destroyed. Each
/// queue keeps the channel alive, so a channel is destroyed only once its
/// registry is empty.
pub struct CompChannel {
    pub handle: Handle,
    pub fd: i32,
}

impl CompChannel {
    /// What a completion channel depends on: its context.
    pub open spec fn parents(ctx: ResourceId) -> Parents {
        Parents { first: Some(ctx), second: None, third: None, fourth: None }
    }

    /// Enters the completion channel that the provider returned as `raw`,
    /// with the OS error code `errno` current after the call and the file
    /// descriptor `fd` of its event source, under `ctx`, see [`creation`]. On
    /// success the new channel has one owner, keeps `ctx` alive, and has an
    /// empty registry.
    pub fn create(table: &mut ResourceTable, ctx: &Context, raw: usize, errno: i32, fd: i32) -> (r:
        Result<Self, Error>)
        requires
            old(table).wf(),
        ensures
            final(table).wf(),
            creation(
                old(table)@,
                final(table)@,
                ResourceKind::CompChannel,
                raw,
                0,
                errno,
                "failed to create completion channel",
                Self::parents(ctx.handle.id()),
                match r {
                    Ok(x) => Ok(x.handle.id()),
                    Err(e) => Err(e),
                },
            ),
            r is Ok ==> r->Ok_0.handle.ffi_ptr() == raw && r->Ok_0.fd == fd,
            r is Ok ==> final(table)@.registry(r->Ok_0.handle.id().index as int)
                == Set::<ResourceId>::empty(),
    {
        let parents = Parents { first: Some(ctx.handle.id()), second: None, third: None, fourth: None };
        match Handle::create(
            table,
            ResourceKind::CompChannel,
            raw,
            0,
            errno,
            "failed to create completion channel",
            parents,
        ) {
            Ok(handle) => Ok(CompChannel { handle, fd }),
            Err(e) => Err(e),
        }
    }

    /// Whether the provider's answer to a wait on this channel can be taken:
    /// it failed, or the address that came with the event is that of a queue
    /// in the registry of this channel.
    pub open spec fn event_expected(&self, t: TableModel, ret: i32, cq_context: u64) -> bool {
        ret == 0 ==> t.resolves_as(self.handle.id(), ResourceKind::CompChannel) && t.registry(
            self.handle.id().index as int,
        ).contains(name_at(cq_context))
    }

    /// Decides [`Self::event_expected`].
    pub fn expects_event(&self, table: &ResourceTable, ret: i32, cq_context: u64) -> (b: bool)
        ensures
            b == self.event_expected(table@, ret, cq_context),
    {
        ret != 0 || table.registered(self.handle.id(), ptr_from_addr(cq_context))
    }

    /// Takes the provider's answer to a wait for the next event of this
    /// channel: the status `ret` and the address `cq_context` that came with
    /// the event. A nonzero status is a failure. Otherwise the event belongs
    /// to the completion queue that the address stands for, and the result is
    /// one more owner of that queue, see [`sharing`].
    ///
    /// The queue must be in the registry of this channel, see
    /// [`Self::event_expected`]: an event of a queue that has been destroyed
    /// breaks the caller's contract.
    pub fn wait_cq_event(&self, table: &mut ResourceTable, ret: i32, cq_context: u64) -> (r: Result<
        CompletionQueue,
        Error,
    >)
        requires
            old(table).wf(),
            self.event_expected(old(table)@, ret, cq_context),
        ensures
            final(table).wf(),
            ret != 0 ==> final(table)@ == old(table)@ && r == Err::<CompletionQueue, Error>(
                Error::Custom { label: "failed to get completion event" },
            ),
            ret == 0 ==> sharing(old(table)@, final(table)@, name_at(cq_context), failure(r)),
            r is Ok ==> r->Ok_0.handle.id() == name_at(cq_context) && r->Ok_0.handle.ffi_ptr()
                == old(table)@.rec(name_at(cq_context).index as int).raw && r->Ok_0.user_data
                == old(table)@.rec(name_at(cq_context).index as int).user_data,
    {
        if ret != 0 {
            return Err(custom_error("failed to get completion event"));
        }
        proof {
            table.lemma_wf();
            let c = self.handle.id().index as int;
            assert(old(table)@.slot_ok(c));
            assert(old(table)@.bound(name_at(cq_context), c));
        }
        CompletionQueue::from_cq_context(table, cq_context)
    }

    /// The file descriptor of the event source.
    pub fn as_raw_fd(&self) -> (r: i32)
        ensures
            r == self.fd,
    {
        self.fd
    }

    /// The provider's handle of the completion channel, as an address.
    pub fn ffi_ptr(&self) -> (r: usize)
        ensures
            r == self.handle.ffi_ptr(),
    {
        self.handle.ffi_ptr()
    }

    /// Makes one more owner of the completion channel, see [`sharing`].
    pub fn try_clone(&self, table: &mut ResourceTable) -> (r: Result<Self, Error>)
        requires
            old(table).wf(),
        ensures
            final(table).wf(),
            sharing(old(table)@, final(table)@, self.handle.id(), failure(r)),
            r is Ok ==> r->Ok_0.handle.id() == self.handle.id() && r->Ok_0.handle.ffi_ptr()
                == self.handle.ffi_ptr()
                && r->Ok_0.fd == self.fd,
    {
        match self.handle.try_clone(table) {
            Ok(handle) => Ok(CompChannel { handle, fd: self.fd }),
            Err(e) => Err(e),
        }
    }

    /// Gives up this owner's hold on the completion channel, see [`releasing`]. The
    /// teardown calls that are returned are owed to the provider, in their
    /// order.
    pub fn release(self, table: &mut ResourceTable) -> (r: Result<Vec<Teardown>, Error>)
        requires
            old(table).wf(),
        ensures
            final(table).wf(),
            releasing(old(table)@, final(table)@, self.handle.id(), owed(r)),
    {
        self.handle.release(table)
    }
}

/// An event of a live completion queue that is bound to a channel leads back
/// to that queue: the address that the provider carries for the queue is
/// expected by the channel and stands for the queue's own name.
pub proof fn lemma_event_resolves(t: TableModel, channel: ResourceId, queue: ResourceId)
    requires
        t.wf(),
        t.resolves_as(channel, ResourceKind::CompChannel),
        t.bound(queue, channel.index as int),
    ensures
        name_at(addr_of(queue)) == queue,
        t.registry(channel.index as int).contains(name_at(addr_of(queue))),
        t.resolves_as(name_at(addr_of(queue)), ResourceKind::CompletionQueue),
{
    assert(t.slot_ok(channel.index as int));
}

} // verus!
