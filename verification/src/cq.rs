//! Completion queues.
use crate::casts::count_to_usize;
use crate::cc::CompChannel;
use crate::ctx::Context;
use crate::error::{check_status, from_errno, status_magnitude};
use crate::handle::Borrowed;
use crate::utils::{addr_of, name_at, ptr_from_addr, ptr_to_addr};
use crate::wc::WorkCompletion;
use crate::error::Error;
use crate::handle::{creation, failure, owed, releasing, sharing, Handle};
use crate::resource::{Parents, ResourceId, ResourceKind, Teardown};
use crate::table::ResourceTable;
use vstd::prelude::*;

verus! {

/// An owner's hold on a completion queue.
pub struct CompletionQueue {
    pub handle: Handle,
    pub user_data: usize,
}

/// What a completion queue is created with.
#[derive(Debug, Clone, Copy, PartialEq, Eq)]
pub struct CompletionQueueOptions {
    pub cqe: usize,
    pub user_data: usize,
    pub channel: Option<Borrowed>,
}

impl Default for CompletionQueueOptions {
    /// No entries, the tag zero, no channel.
    fn default() -> (r: Self)
        ensures
            r == (CompletionQueueOptions { cqe: 0, user_data: 0, channel: None }),
    {
        CompletionQueueOptions { cqe: 0, user_data: 0, channel: None }
    }
}

impl CompletionQueueOptions {
    /// Sets the number of entries that the queue is to hold at least.
    pub fn cqe(&mut self, cqe: usize) -> (r: &mut Self)
        ensures
            *r == (CompletionQueueOptions { cqe, ..*old(self) }),
            *final(self) == *final(r),
    {
        self.cqe = cqe;
        self
    }

    /// Sets the tag that the queue carries.
    pub fn user_data(&mut self, user_data: usize) -> (r: &mut Self)
        ensures
            *r == (CompletionQueueOptions { user_data, ..*old(self) }),
            *final(self) == *final(r),
    {
        self.user_data = user_data;
        self
    }

    /// Binds the queue to the channel `cc`: its events will arrive there.
    pub fn channel(&mut self, cc: &CompChannel) -> (r: &mut Self)
        ensures
            *r == (CompletionQueueOptions {
                channel: Some(Borrowed { id: cc.handle.id(), raw: cc.handle.ffi_ptr() }),
                ..*old(self)
            }),
            *final(self) == *final(r),
    {
        self.channel = Some(cc.handle.borrow());
        self
    }

    /// The number of entries as the provider takes it: the low 32 bits.
    pub fn entries(&self) -> (r: u32)
        ensures
            r == self.cqe as u32,
    {
        #[verifier::truncate]
        (self.cqe as u32)
    }

    /// The provider's handle of the channel, as an address; zero where the
    /// queue is bound to none.
    pub fn channel_ptr(&self) -> (r: usize)
        ensures
            r == match self.channel {
                Some(b) => b.raw,
                None => 0,
            },
    {
        match self.channel {
            Some(b) => b.raw,
            None => 0,
        }
    }
}

/// The name of a borrowed resource, if there is one.
pub open spec fn name_of(b: Option<Borrowed>) -> Option<ResourceId> {
    match b {
        Some(b) => Some(b.id),
        None => None,
    }
}

impl CompletionQueue {
    /// What a completion queue depends on: its channel, if it is bound to one,
    /// and its context. It lets go of them in this order.
    pub open spec fn parents(ctx: ResourceId, channel: Option<Borrowed>) -> Parents {
        Parents { first: name_of(channel), second: Some(ctx), third: None, fourth: None }
    }

    /// Enters the completion queue that the provider returned as `raw`, with
    /// the OS error code `errno` current after the call, under `ctx` and the
    /// channel of `options`, see [`creation`]. On success the new queue has
    /// one owner, keeps its context and its channel alive, and is in the
    /// registry of its channel under its own name; the caller stores
    /// [`Self::cq_context`] with the provider as the queue's context.
    pub fn create(
        table: &mut ResourceTable,
        ctx: &Context,
        options: CompletionQueueOptions,
        raw: usize,
        errno: i32,
    ) -> (r: Result<Self, Error>)
        requires
            old(table).wf(),
        ensures
            final(table).wf(),
            creation(
                old(table)@,
                final(table)@,
                ResourceKind::CompletionQueue,
                raw,
                options.user_data,
                errno,
                "failed to create completion queue",
                Self::parents(ctx.handle.id(), options.channel),
                match r {
                    Ok(x) => Ok(x.handle.id()),
                    Err(e) => Err(e),
                },
            ),
            r is Ok ==> r->Ok_0.handle.ffi_ptr() == raw && r->Ok_0.user_data == options.user_data,
            r is Ok && options.channel is Some ==> final(table)@.registry(
                options.channel->0.id.index as int,
            ).contains(r->Ok_0.handle.id()),
    {
        let channel = match options.channel {
            Some(b) => Some(b.id),
            None => None,
        };
        let parents = Parents { first: channel, second: Some(ctx.handle.id()), third: None, fourth: None };
        match Handle::create(
            table,
            ResourceKind::CompletionQueue,
            raw,
            options.user_data,
            errno,
            "failed to create completion queue",
            parents,
        ) {
            Ok(handle) => {
                proof {
                    if options.channel is Some {
                        let c = options.channel->0.id.index as int;
                        let i = handle.id().index as int;
                        let m = old(table)@;
                        assert(final(table)@.slots[c] == m.placed_slot(
                            i,
                            crate::model::fresh_record(
                                ResourceKind::CompletionQueue,
                                raw,
                                options.user_data,
                                parents.links(),
                            ),
                            c,
                        ));
                    }
                }
                Ok(CompletionQueue { handle, user_data: options.user_data })
            },
            Err(e) => Err(e),
        }
    }

    /// The address under which the provider is to carry the queue: it comes
    /// back with every event of the queue and leads back to the queue, see
    /// [`Self::from_cq_context`].
    pub fn cq_context(&self) -> (r: u64)
        ensures
            r == addr_of(self.handle.id()),
            name_at(r) == self.handle.id(),
    {
        ptr_to_addr(self.handle.id())
    }

    /// Makes one more owner of the completion queue that the provider carries
    /// under `cq_context`, see [`sharing`]. The queue must be live: an event
    /// for a queue that has been destroyed breaks the caller's contract.
    pub fn from_cq_context(table: &mut ResourceTable, cq_context: u64) -> (r: Result<Self, Error>)
        requires
            old(table).wf(),
            old(table)@.resolves_as(name_at(cq_context), ResourceKind::CompletionQueue),
        ensures
            final(table).wf(),
            sharing(old(table)@, final(table)@, name_at(cq_context), failure(r)),
            r is Ok ==> r->Ok_0.handle.id() == name_at(cq_context) && r->Ok_0.handle.ffi_ptr()
                == old(table)@.rec(name_at(cq_context).index as int).raw && r->Ok_0.user_data
                == old(table)@.rec(name_at(cq_context).index as int).user_data,
    {
        let id = ptr_from_addr(cq_context);
        let user_data = match table.record(id) {
            Some(rec) => rec.user_data,
            None => 0,
        };
        match Handle::upgrade(table, id) {
            Ok(handle) => Ok(CompletionQueue { handle, user_data }),
            Err(e) => Err(e),
        }
    }

    /// The tag that the queue was created with.
    pub fn user_data(&self) -> (r: usize)
        ensures
            r == self.user_data,
    {
        self.user_data
    }

    /// What the provider is asked with when it is to notify of solicited
    /// completions only, or of all.
    pub fn notify_flag(solicited_only: bool) -> (r: i32)
        ensures
            r == if solicited_only {
                1i32
            } else {
                0i32
            },
    {
        if solicited_only {
            1
        } else {
            0
        }
    }

    fn req_notify(&self, ret: i32) -> (r: Result<(), Error>)
        ensures
            ret == 0 ==> r == Ok::<(), Error>(()),
            ret != 0 ==> r == Err::<(), Error>(Error::Operation { code: ret }),
    {
        check_status(ret)
    }

    /// Sorts the provider's answer `ret` to a request for notification of the
    /// next completion, whatever it is: zero is success, any other status is
    /// the OS error code of an operation failure.
    pub fn req_notify_all(&self, ret: i32) -> (r: Result<(), Error>)
        ensures
            ret == 0 ==> r == Ok::<(), Error>(()),
            ret != 0 ==> r == Err::<(), Error>(Error::Operation { code: ret }),
    {
        self.req_notify(ret)
    }

    /// Sorts the provider's answer `ret` to a request for notification of the
    /// next solicited completion: zero is success, any other status is the OS
    /// error code of an operation failure.
    pub fn req_notify_solicited(&self, ret: i32) -> (r: Result<(), Error>)
        ensures
            ret == 0 ==> r == Ok::<(), Error>(()),
            ret != 0 ==> r == Err::<(), Error>(Error::Operation { code: ret }),
    {
        self.req_notify(ret)
    }

    /// Counts `cnt` more completion events as handled. The sum is
    /// acknowledged to the provider in one call when the queue is destroyed,
    /// see [`Teardown`]; it wraps at 32 bits.
    ///
    /// Fails with [`Error::Released`] where the queue is not live; the table
    /// is then as it was.
    pub fn ack_cq_events(&self, table: &mut ResourceTable, cnt: u32) -> (r: Result<(), Error>)
        requires
            old(table).wf(),
        ensures
            final(table).wf(),
            match r {
                Ok(_) => old(table)@.resolves_as(self.handle.id(), ResourceKind::CompletionQueue)
                    && final(table)@ == old(table)@.acknowledge(self.handle.id(), cnt),
                Err(e) => e == Error::Released && !old(table)@.resolves_as(
                    self.handle.id(),
                    ResourceKind::CompletionQueue,
                ) && final(table)@ == old(table)@,
            },
    {
        table.acknowledge(self.handle.id(), cnt)
    }

    /// The number of entries that the provider is told a buffer of `capacity`
    /// completions has: the low 32 bits, read as a signed number.
    pub fn poll_entries(capacity: usize) -> (r: i32)
        ensures
            r == capacity as i32,
    {
        #[verifier::truncate]
        (capacity as i32)
    }

    /// Sorts the provider's answer `ret` to a poll into the buffer
    /// `completions`. A negative answer is an operation failure whose code is
    /// the magnitude of the answer. Any other answer is the number of
    /// completions that the provider wrote: they are returned, in their
    /// order; no more are returned than the buffer holds.
    pub fn poll(&self, ret: i32, completions: Vec<WorkCompletion>) -> (r: Result<
        Vec<WorkCompletion>,
        Error,
    >)
        ensures
            ret < 0 ==> r == Err::<Vec<WorkCompletion>, Error>(
                Error::Operation { code: status_magnitude(ret) },
            ),
            ret >= 0 ==> r is Ok && r->Ok_0@ == completions@.take(
                if ret <= completions@.len() {
                    ret as int
                } else {
                    completions@.len() as int
                },
            ),
    {
        if ret < 0 {
            let code: i32 = if ret == i32::MIN {
                i32::MIN
            } else {
                -ret
            };
            return Err(from_errno(code));
        }
        let len: usize = count_to_usize(ret);
        let mut completions = completions;
        if len < completions.len() {
            completions.truncate(len);
        } else {
            assert(completions@.take(completions@.len() as int) =~= completions@);
        }
        Ok(completions)
    }

    /// The provider's handle of the completion queue, as an address.
    pub fn ffi_ptr(&self) -> (r: usize)
        ensures
            r == self.handle.ffi_ptr(),
    {
        self.handle.ffi_ptr()
    }

    /// Makes one more owner of the completion queue, see [`sharing`].
    pub fn try_clone(&self, table: &mut ResourceTable) -> (r: Result<Self, Error>)
        requires
            old(table).wf(),
        ensures
            final(table).wf(),
            sharing(old(table)@, final(table)@, self.handle.id(), failure(r)),
            r is Ok ==> r->Ok_0.handle.id() == self.handle.id() && r->Ok_0.handle.ffi_ptr()
                == self.handle.ffi_ptr()
                && r->Ok_0.user_data == self.user_data,
    {
        match self.handle.try_clone(table) {
            Ok(handle) => Ok(CompletionQueue { handle, user_data: self.user_data }),
            Err(e) => Err(e),
        }
    }

    /// Gives up this owner's hold on the completion queue, see [`releasing`]. The
    /// teardown calls that are returned are owed to the provider, in their
    /// order.
    pub fn release(self, table: &mut ResourceTable) -> (r: Result<Vec<Teardown>, Error>)
        requires
            old(table).wf(),
        ensures
            final(table).wf(),
            releasing(old(table)@, final(table)@, self.handle.id(), owed(r)),
    {
        self.handle.release(table)
    }
}

} // verus!
