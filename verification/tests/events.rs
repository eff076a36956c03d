use ibverbs::cc::CompChannel;
use ibverbs::cq::{CompletionQueue, CompletionQueueOptions};
use ibverbs::ctx::Context;
use ibverbs::error::Error;
use ibverbs::resource::{ResourceId, ResourceKind, Teardown};
use ibverbs::table::ResourceTable;
use ibverbs::utils::{ptr_from_addr, ptr_to_addr};
use ibverbs::wc::WorkCompletion;
use ibverbs::weakset::WeakSet;

fn bound_queue(table: &mut ResourceTable, ctx: &Context, cc: &CompChannel, raw: usize, tag: usize) -> CompletionQueue {
    let mut options = CompletionQueueOptions::default();
    options.cqe(8).user_data(tag).channel(cc);
    assert_eq!(options.channel_ptr(), cc.ffi_ptr());
    CompletionQueue::create(table, ctx, options, raw, 0).unwrap()
}

#[test]
fn event_leads_back_to_its_queue() {
    let mut table = ResourceTable::new();
    let ctx = Context::open(&mut table, 0x100, 0).unwrap();
    let cc = CompChannel::create(&mut table, &ctx, 0x200, 0, 5).unwrap();
    assert_eq!(cc.as_raw_fd(), 5);
    assert_eq!(table.registry_len(cc.handle.id()), Some(0));
    let a = bound_queue(&mut table, &ctx, &cc, 0x300, 11);
    let b = bound_queue(&mut table, &ctx, &cc, 0x301, 22);
    assert_eq!(table.registry_len(cc.handle.id()), Some(2));
    assert!(table.registered(cc.handle.id(), a.handle.id()));
    assert!(table.registered(cc.handle.id(), b.handle.id()));

    let tag = b.cq_context();
    assert!(cc.expects_event(&table, 0, tag));
    let got = cc.wait_cq_event(&mut table, 0, tag).unwrap();
    assert!(got.handle.same(&b.handle));
    assert!(!got.handle.same(&a.handle));
    assert_eq!(got.ffi_ptr(), 0x301);
    assert_eq!(got.user_data(), 22);
    assert_eq!(table.record(b.handle.id()).unwrap().handles, 2);
    assert!(got.release(&mut table).unwrap().is_empty());

    let r = cc.wait_cq_event(&mut table, -1, tag);
    assert!(matches!(r, Err(Error::Custom { label: "failed to get completion event" })));
    assert_eq!(table.record(b.handle.id()).unwrap().handles, 1);
}

#[test]
fn destroying_a_queue_takes_one_name_out_of_the_registry() {
    let mut table = ResourceTable::new();
    let ctx = Context::open(&mut table, 0x100, 0).unwrap();
    let cc = CompChannel::create(&mut table, &ctx, 0x200, 0, 5).unwrap();
    let a = bound_queue(&mut table, &ctx, &cc, 0x300, 0);
    let b = bound_queue(&mut table, &ctx, &cc, 0x301, 0);
    let a_id = a.handle.id();
    let a_tag = a.cq_context();
    assert_eq!(a.ack_cq_events(&mut table, 3), Ok(()));
    assert_eq!(a.ack_cq_events(&mut table, 4), Ok(()));
    let owed = a.release(&mut table).unwrap();
    assert_eq!(owed, vec![Teardown { kind: ResourceKind::CompletionQueue, raw: 0x300, acks: 7 }]);
    assert_eq!(table.registry_len(cc.handle.id()), Some(1));
    assert!(!table.registered(cc.handle.id(), a_id));
    assert!(table.registered(cc.handle.id(), b.handle.id()));
    // an event of the destroyed queue is not expected any more
    assert!(!cc.expects_event(&table, 0, a_tag));
    assert!(!table.resolves(a_id));
    // a queue that takes the slot over has another name
    let c = bound_queue(&mut table, &ctx, &cc, 0x302, 0);
    assert_eq!(c.handle.id().index, a_id.index);
    assert_ne!(c.handle.id(), a_id);
    assert!(!cc.expects_event(&table, 0, a_tag));
    assert!(cc.expects_event(&table, 0, c.cq_context()));
    assert_eq!(table.registry_len(cc.handle.id()), Some(2));
}

#[test]
fn channel_goes_after_its_last_queue() {
    let mut table = ResourceTable::new();
    let ctx = Context::open(&mut table, 0x100, 0).unwrap();
    let cc = CompChannel::create(&mut table, &ctx, 0x200, 0, 5).unwrap();
    let cq = bound_queue(&mut table, &ctx, &cc, 0x300, 0);
    let cc_id = cc.handle.id();
    assert!(ctx.release(&mut table).unwrap().is_empty());
    assert!(cc.release(&mut table).unwrap().is_empty());
    assert_eq!(table.registry_len(cc_id), Some(1));
    let owed = cq.release(&mut table).unwrap();
    assert_eq!(
        owed,
        vec![
            Teardown { kind: ResourceKind::CompletionQueue, raw: 0x300, acks: 0 },
            Teardown { kind: ResourceKind::CompChannel, raw: 0x200, acks: 0 },
            Teardown { kind: ResourceKind::Context, raw: 0x100, acks: 0 },
        ]
    );
    assert_eq!(table.registry_len(cc_id), None);
    assert_eq!(table.live_count(), 0);
}

#[test]
fn acknowledged_events_wrap() {
    let mut table = ResourceTable::new();
    let ctx = Context::open(&mut table, 0x100, 0).unwrap();
    let cq = CompletionQueue::create(&mut table, &ctx, CompletionQueueOptions::default(), 0x300, 0).unwrap();
    cq.ack_cq_events(&mut table, u32::MAX).unwrap();
    cq.ack_cq_events(&mut table, 3).unwrap();
    assert_eq!(table.record(cq.handle.id()).unwrap().acks, 2);
    let other = Context::open(&mut table, 0x101, 0).unwrap();
    let not_a_queue = CompletionQueue { handle: other.handle, user_data: 0 };
    assert_eq!(not_a_queue.ack_cq_events(&mut table, 1), Err(Error::Released));
}

#[test]
fn notify_and_poll() {
    let mut table = ResourceTable::new();
    let ctx = Context::open(&mut table, 0x100, 0).unwrap();
    let cq = CompletionQueue::create(&mut table, &ctx, CompletionQueueOptions::default(), 0x300, 0).unwrap();
    assert_eq!(CompletionQueue::notify_flag(false), 0);
    assert_eq!(CompletionQueue::notify_flag(true), 1);
    assert_eq!(cq.req_notify_all(0), Ok(()));
    assert_eq!(cq.req_notify_solicited(0), Ok(()));
    assert_eq!(cq.req_notify_all(5), Err(Error::Operation { code: 5 }));
    assert_eq!(cq.req_notify_solicited(-5), Err(Error::Operation { code: -5 }));

    assert_eq!(CompletionQueue::poll_entries(4), 4);
    let wc = |id: u64| WorkCompletion { wr_id: id, status: 0, opcode: 0, byte_len: 8, wc_flags: 0, imm_data: 0 };
    let buf = vec![wc(1), wc(2), wc(3), wc(4)];
    let got = cq.poll(2, buf.clone()).unwrap();
    assert_eq!(got, vec![wc(1), wc(2)]);
    assert_eq!(cq.poll(0, buf.clone()).unwrap(), vec![]);
    assert_eq!(cq.poll(4, buf.clone()).unwrap().len(), 4);
    assert_eq!(cq.poll(9, buf.clone()).unwrap().len(), 4);
    assert_eq!(cq.poll(-11, buf.clone()), Err(Error::Operation { code: 11 }));
    assert_eq!(cq.poll(i32::MIN, buf), Err(Error::Operation { code: i32::MIN }));
}

#[test]
fn names_and_addresses_correspond() {
    for id in [
        ResourceId { index: 0, generation: 0 },
        ResourceId { index: 7, generation: 3 },
        ResourceId { index: u32::MAX, generation: u32::MAX },
        ResourceId { index: 1, generation: u32::MAX - 1 },
    ] {
        assert_eq!(ptr_from_addr(ptr_to_addr(id)), id);
    }
    assert_eq!(ptr_to_addr(ResourceId { index: 7, generation: 3 }), 0x3_0000_0007);
    assert_eq!(ptr_from_addr(0x5_0000_0002), ResourceId { index: 2, generation: 5 });
    for addr in [0u64, 1, 0xffff_ffff, 0x1_0000_0000, u64::MAX] {
        assert_eq!(ptr_to_addr(ptr_from_addr(addr)), addr);
    }
}

#[test]
fn weak_set_holds_each_name_once() {
    let mut set = WeakSet::new();
    let a = ResourceId { index: 1, generation: 0 };
    let b = ResourceId { index: 1, generation: 1 };
    assert_eq!(set.len(), 0);
    assert!(set.insert(a));
    assert!(!set.insert(a));
    assert!(set.insert(b));
    assert_eq!(set.len(), 2);
    assert!(set.contains(a));
    assert!(set.remove(a));
    assert!(!set.remove(a));
    assert!(!set.contains(a));
    assert!(set.contains(b));
    assert_eq!(set.len(), 1);
}
