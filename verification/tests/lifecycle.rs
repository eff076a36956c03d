use ibverbs::cc::CompChannel;
use ibverbs::cq::{CompletionQueue, CompletionQueueOptions};
use ibverbs::ctx::Context;
use ibverbs::device::port_attr::Mtu;
use ibverbs::dm::{DeviceMemory, DeviceMemoryOptions};
use ibverbs::error::Error;
use ibverbs::mr::{AccessFlags, MemoryRegion, Registration};
use ibverbs::mw::{MemoryWindow, MemoryWindowType};
use ibverbs::pd::ProtectionDomain;
use ibverbs::qp::{
    ModifyOptions, QueryOptions, QueuePair, QueuePairCapacity, QueuePairState, QueuePairType,
    QP_ACCESS_FLAGS, QP_CAP, QP_PORT, QP_STATE,
};
use ibverbs::resource::{ResourceId, ResourceKind, Teardown};
use ibverbs::srq::SharedReceiveQueue;
use ibverbs::table::ResourceTable;
use ibverbs::wr::SendRequest;

fn gone(kind: ResourceKind, raw: usize) -> Teardown {
    Teardown { kind, raw, acks: 0 }
}

#[test]
fn open_then_release_leaves_nothing() {
    let mut table = ResourceTable::new();
    assert_eq!(table.live_count(), 0);
    let ctx = Context::open(&mut table, 0x1000, 0).unwrap();
    assert_eq!(ctx.ffi_ptr(), 0x1000);
    assert_eq!(table.live_count(), 1);
    let id = ctx.handle.id();
    assert!(table.resolves(id));
    let owed = ctx.release(&mut table).unwrap();
    assert_eq!(owed, vec![gone(ResourceKind::Context, 0x1000)]);
    assert_eq!(table.live_count(), 0);
    assert!(!table.resolves(id));
}

#[test]
fn open_then_release_keeps_other_resources() {
    let mut table = ResourceTable::new();
    let first = Context::open(&mut table, 0x1000, 0).unwrap();
    let pd = ProtectionDomain::allocate(&mut table, &first, 0x2000, 0).unwrap();
    let before = table.live_count();
    let second = Context::open(&mut table, 0x3000, 0).unwrap();
    assert_eq!(table.live_count(), before + 1);
    let owed = second.release(&mut table).unwrap();
    assert_eq!(owed, vec![gone(ResourceKind::Context, 0x3000)]);
    assert_eq!(table.live_count(), before);
    assert!(first.handle.is_live(&table));
    assert!(pd.handle.is_live(&table));
}

#[test]
fn open_fails_on_null_handle() {
    let mut table = ResourceTable::new();
    let r = Context::open(&mut table, 0, 19);
    assert!(matches!(r, Err(Error::Creation { code: 19, label: "failed to open device" })));
    assert_eq!(table.live_count(), 0);
}

#[test]
fn creation_labels() {
    let mut table = ResourceTable::new();
    let ctx = Context::open(&mut table, 0x10, 0).unwrap();
    let pd = ProtectionDomain::allocate(&mut table, &ctx, 0x20, 0).unwrap();
    let label = |r: Error| match r {
        Error::Creation { code: 12, label } => label,
        other => panic!("unexpected {:?}", other),
    };
    assert_eq!(
        label(ProtectionDomain::allocate(&mut table, &ctx, 0, 12).err().unwrap()),
        "failed to allocate protection domain"
    );
    assert_eq!(
        label(CompChannel::create(&mut table, &ctx, 0, 12, 3).err().unwrap()),
        "failed to create completion channel"
    );
    assert_eq!(
        label(
            CompletionQueue::create(&mut table, &ctx, CompletionQueueOptions::default(), 0, 12)
                .err()
                .unwrap()
        ),
        "failed to create completion queue"
    );
    assert_eq!(
        label(
            MemoryRegion::register(
                &mut table,
                &pd,
                0,
                12,
                Registration { addr: 0, length: 0, lkey: 0, rkey: 0 },
                ()
            )
            .err()
            .unwrap()
        ),
        "failed to register memory region"
    );
    assert_eq!(
        label(MemoryWindow::allocate(&mut table, &pd, MemoryWindowType::Type1, 0, 12).err().unwrap()),
        "failed to allocate memory window"
    );
    assert_eq!(
        label(ibverbs::ah::AddressHandle::create(&mut table, &pd, 0, 12).err().unwrap()),
        "failed to create address handle"
    );
    assert_eq!(
        label(
            DeviceMemory::allocate(&mut table, &ctx, DeviceMemoryOptions::default(), 0, 12)
                .err()
                .unwrap()
        ),
        "failed to allocate device memory"
    );
    assert_eq!(
        label(SharedReceiveQueue::create(&mut table, &pd, 0, 12).err().unwrap()),
        "failed to create shared receive queue"
    );
    assert_eq!(
        label(QueuePair::create(&mut table, QueuePair::options(), 0, 12, 0).err().unwrap()),
        "failed to create queue pair"
    );
    assert_eq!(table.live_count(), 2);
}

#[test]
fn parent_outlives_child() {
    let mut table = ResourceTable::new();
    let ctx = Context::open(&mut table, 0x10, 0).unwrap();
    let pd = ProtectionDomain::allocate(&mut table, &ctx, 0x20, 0).unwrap();
    // the context has no owner left, but the protection domain keeps it alive
    let owed = ctx.release(&mut table).unwrap();
    assert!(owed.is_empty());
    assert_eq!(table.live_count(), 2);
    // the last owner of the protection domain lets go: child first, then parent
    let owed = pd.release(&mut table).unwrap();
    assert_eq!(
        owed,
        vec![gone(ResourceKind::ProtectionDomain, 0x20), gone(ResourceKind::Context, 0x10)]
    );
    assert_eq!(table.live_count(), 0);
}

#[test]
fn shared_hold_delays_teardown() {
    let mut table = ResourceTable::new();
    let ctx = Context::open(&mut table, 0x10, 0).unwrap();
    let again = ctx.try_clone(&mut table).unwrap();
    assert!(again.handle.same(&ctx.handle));
    assert_eq!(again.ffi_ptr(), 0x10);
    assert_eq!(table.record(ctx.handle.id()).unwrap().handles, 2);
    assert!(ctx.release(&mut table).unwrap().is_empty());
    assert_eq!(table.live_count(), 1);
    assert_eq!(again.release(&mut table).unwrap(), vec![gone(ResourceKind::Context, 0x10)]);
}

#[test]
fn creation_under_a_released_parent_fails() {
    let mut table = ResourceTable::new();
    let ctx = Context::open(&mut table, 0x10, 0).unwrap();
    let stale = ctx.try_clone(&mut table).unwrap();
    ctx.release(&mut table).unwrap();
    let kept = Context::open(&mut table, 0x11, 0).unwrap();
    // take the table's slot away under the stale handle
    let id = stale.handle.id();
    let owed = stale.release(&mut table).unwrap();
    assert_eq!(owed.len(), 1);
    assert!(!table.resolves(id));
    // a handle of the wrong kind in the parent's place is refused as well
    let pd = ProtectionDomain::allocate(&mut table, &kept, 0x20, 0).unwrap();
    let wrong = Context { handle: pd.handle };
    let r = ProtectionDomain::allocate(&mut table, &wrong, 0x30, 0);
    assert!(matches!(r, Err(Error::Released)));
    assert_eq!(table.live_count(), 2);
}

#[test]
fn slots_are_reused_under_new_names() {
    let mut table = ResourceTable::new();
    let a = Context::open(&mut table, 0x10, 0).unwrap();
    let first = a.handle.id();
    assert_eq!(first, ResourceId { index: 0, generation: 0 });
    a.release(&mut table).unwrap();
    let b = Context::open(&mut table, 0x11, 0).unwrap();
    let second = b.handle.id();
    assert_eq!(second, ResourceId { index: 0, generation: 1 });
    assert!(!table.resolves(first));
    assert!(table.resolves(second));
    assert!(table.resolves_as(second, ResourceKind::Context));
    assert!(!table.resolves_as(second, ResourceKind::QueuePair));
    let c = Context::open(&mut table, 0x12, 0).unwrap();
    assert_eq!(c.handle.id(), ResourceId { index: 1, generation: 0 });
    assert!(table.has_room());
}

#[test]
fn queue_pair_scenario() {
    let mut table = ResourceTable::new();
    let ctx = Context::open(&mut table, 0x100, 0).unwrap();
    let pd = ProtectionDomain::allocate(&mut table, &ctx, 0x200, 0).unwrap();
    let mut cq_options = CompletionQueueOptions::default();
    cq_options.cqe(16);
    assert_eq!(cq_options.entries(), 16);
    assert_eq!(cq_options.channel_ptr(), 0);
    let cq = CompletionQueue::create(&mut table, &ctx, cq_options, 0x300, 0).unwrap();
    let mut options = QueuePair::options();
    options
        .qp_type(QueuePairType::RC)
        .send_cq(&cq)
        .recv_cq(&cq)
        .pd(&pd)
        .cap(QueuePairCapacity {
            max_send_wr: 16,
            max_recv_wr: 16,
            max_send_sge: 1,
            max_recv_sge: 1,
            max_inline_data: 0,
        });
    assert_eq!(options.qp_type, 2);
    assert_eq!(options.comp_mask, 1);
    let qp = QueuePair::create(&mut table, options, 0x400, 0, 77).unwrap();
    assert_eq!(qp.qp_num(), 77);
    assert_eq!(qp.send_cq().unwrap().id, cq.handle.id());
    assert_eq!(qp.recv_cq().unwrap().raw, 0x300);
    // the queue pair holds the completion queue twice
    assert_eq!(table.record(cq.handle.id()).unwrap().children, 2);
    assert_eq!(table.record(pd.handle.id()).unwrap().children, 1);

    let mut modify = ModifyOptions::default();
    modify
        .qp_state(QueuePairState::Initialize)
        .port_num(1)
        .qp_access_flags(AccessFlags::local_write().union(AccessFlags::remote_write()));
    assert_eq!(modify.mask(), QP_STATE | QP_PORT | QP_ACCESS_FLAGS);
    assert_eq!(modify.attr.qp_state, 1);
    assert_eq!(modify.attr.port_num, 1);
    assert_eq!(modify.attr.qp_access_flags, 3);
    assert!(modify.is_set(QP_STATE));
    assert!(!modify.is_set(QP_CAP));
    assert_eq!(qp.modify(modify, 0), Ok(()));

    let mut query = QueryOptions::default();
    query.qp_state();
    let attr = qp.query(query, 0, 1, QueuePairCapacity::default()).unwrap();
    assert!(attr.is_state_readable());
    assert_eq!(attr.qp_state(), Some(QueuePairState::Initialize));
    assert_eq!(attr.cap(), None);

    // teardown: the queue pair first, then what it alone kept alive
    assert!(ctx.release(&mut table).unwrap().is_empty());
    assert!(pd.release(&mut table).unwrap().is_empty());
    assert!(cq.release(&mut table).unwrap().is_empty());
    assert_eq!(table.live_count(), 4);
    let owed = qp.release(&mut table).unwrap();
    assert_eq!(
        owed,
        vec![
            gone(ResourceKind::QueuePair, 0x400),
            gone(ResourceKind::ProtectionDomain, 0x200),
            gone(ResourceKind::CompletionQueue, 0x300),
            gone(ResourceKind::Context, 0x100),
        ]
    );
    assert_eq!(table.live_count(), 0);
}

#[test]
fn query_mask_gates_each_attribute() {
    let mut table = ResourceTable::new();
    let qp = QueuePair::create(&mut table, QueuePair::options(), 0x400, 0, 1).unwrap();
    let cap = QueuePairCapacity {
        max_send_wr: 4,
        max_recv_wr: 5,
        max_send_sge: 2,
        max_recv_sge: 3,
        max_inline_data: 64,
    };
    let mut state_only = QueryOptions::default();
    state_only.qp_state();
    let attr = qp.query(state_only, 0, 3, cap).unwrap();
    assert_eq!(attr.qp_state(), Some(QueuePairState::ReadyToSend));
    assert!(attr.cap().is_none());

    let mut both = QueryOptions::default();
    both.qp_state().cap();
    let attr = qp.query(both, 0, 0, cap).unwrap();
    assert_eq!(attr.qp_state(), Some(QueuePairState::Reset));
    assert_eq!(attr.cap(), Some(&cap));

    let mut cap_only = QueryOptions::default();
    cap_only.cap();
    // the state is undefined here, and is not read
    let attr = qp.query(cap_only, 0, 999, cap).unwrap();
    assert!(attr.is_state_readable());
    assert_eq!(attr.qp_state(), None);
    assert_eq!(attr.cap(), Some(&cap));

    let attr = qp.query(QueryOptions::default(), 0, 0, cap).unwrap();
    assert_eq!(attr.qp_state(), None);
    assert!(attr.cap().is_none());

    let mut undefined = QueryOptions::default();
    undefined.qp_state();
    let attr = qp.query(undefined, 0, 8, cap).unwrap();
    assert!(!attr.is_state_readable());

    assert_eq!(qp.query(both, 22, 0, cap), Err(Error::Operation { code: 22 }));
    assert_eq!(qp.modify(ModifyOptions::default(), 13), Err(Error::Operation { code: 13 }));
}

#[test]
fn register_memory_region_scenario() {
    let mut table = ResourceTable::new();
    let ctx = Context::open(&mut table, 0x100, 0).unwrap();
    let pd = ProtectionDomain::allocate(&mut table, &ctx, 0x200, 0).unwrap();
    let buffer = vec![0u8; 4096];
    let flags = AccessFlags::local_write();
    assert_eq!(flags.to_c_uint(), 1);
    let told = Registration { addr: buffer.as_ptr() as usize, length: buffer.len(), lkey: 0x1234, rkey: 0x5678 };
    let mr = MemoryRegion::register(&mut table, &pd, 0x500, 0, told, "payload").unwrap();
    assert_ne!(mr.lkey(), 0);
    assert_eq!(mr.lkey(), 0x1234);
    assert_eq!(mr.rkey(), 0x5678);
    assert_eq!(mr.length(), 4096);
    assert_eq!(mr.addr_ptr(), buffer.as_ptr() as usize);
    assert_eq!(mr.addr_u64(), buffer.as_ptr() as usize as u64);
    assert_eq!(*mr.metadata(), "payload");
    assert_eq!(mr.ffi_ptr(), 0x500);
    let again = mr.try_clone(&mut table).unwrap();
    assert_eq!(again.length(), 4096);
    assert_eq!(*again.metadata(), "payload");
    assert!(mr.release(&mut table).unwrap().is_empty());
    assert_eq!(again.release(&mut table).unwrap(), vec![gone(ResourceKind::MemoryRegion, 0x500)]);
    assert_eq!(table.live_count(), 2);
}

#[test]
fn post_send_on_reset_queue_pair_fails() {
    let mut table = ResourceTable::new();
    let qp = QueuePair::create(&mut table, QueuePair::options(), 0x400, 0, 5).unwrap();
    let mut wr = SendRequest::zeroed();
    wr.id(1).sg_list(&[]).rdma_rkey(0xdead_beef);
    assert_eq!(wr.num_sge, 0);
    // the provider refuses with EINVAL and names the first request
    let r = qp.post_send(&wr, 22, 0, Some(0));
    assert_eq!(r, Err(Error::Post { code: 22, first_bad: Some(0) }));
    assert_eq!(r.unwrap_err().code(), Some(22));
    // an OS error code that is set wins over the status
    let r = qp.post_send(&wr, -1, 12, None);
    assert_eq!(r, Err(Error::Post { code: 12, first_bad: None }));
    // a negative status counts by its magnitude
    let r = qp.post_send(&wr, -22, 0, Some(7));
    assert_eq!(r, Err(Error::Post { code: 22, first_bad: None }));
    assert_eq!(qp.post_send(&wr, 0, 0, None), Ok(()));
    assert_eq!(table.live_count(), 1);
}

#[test]
fn memory_window_and_device_memory() {
    let mut table = ResourceTable::new();
    let ctx = Context::open(&mut table, 0x100, 0).unwrap();
    let pd = ProtectionDomain::allocate(&mut table, &ctx, 0x200, 0).unwrap();
    let mw = MemoryWindow::allocate(&mut table, &pd, MemoryWindowType::Type2, 0x600, 0).unwrap();
    assert_eq!(mw.mw_type, MemoryWindowType::Type2);
    assert_eq!(mw.mw_type.to_c_uint(), 2);
    let options = DeviceMemory::options();
    assert_eq!(options, DeviceMemoryOptions { length: 0, log_align_req: 0, comp_mask: 0 });
    let dm = DeviceMemory::allocate(&mut table, &ctx, options, 0x700, 0).unwrap();
    assert_eq!(dm.ffi_ptr(), 0x700);
    let srq = SharedReceiveQueue::create(&mut table, &pd, 0x800, 0).unwrap();
    assert_eq!(table.live_count(), 5);
    assert_eq!(table.record(pd.handle.id()).unwrap().children, 2);
    assert_eq!(table.record(ctx.handle.id()).unwrap().children, 2);
    assert_eq!(mw.release(&mut table).unwrap(), vec![gone(ResourceKind::MemoryWindow, 0x600)]);
    assert_eq!(dm.release(&mut table).unwrap(), vec![gone(ResourceKind::DeviceMemory, 0x700)]);
    assert_eq!(srq.release(&mut table).unwrap(), vec![gone(ResourceKind::SharedReceiveQueue, 0x800)]);
    assert_eq!(table.record(pd.handle.id()).unwrap().children, 0);
}

#[test]
fn queue_pair_with_shared_receive_queue() {
    let mut table = ResourceTable::new();
    let ctx = Context::open(&mut table, 0x100, 0).unwrap();
    let pd = ProtectionDomain::allocate(&mut table, &ctx, 0x200, 0).unwrap();
    let cq = CompletionQueue::create(&mut table, &ctx, CompletionQueueOptions::default(), 0x300, 0).unwrap();
    let srq = SharedReceiveQueue::create(&mut table, &pd, 0x800, 0).unwrap();
    let mut options = QueuePair::options();
    options.send_cq(&cq).recv_cq(&cq).srq(&srq).user_data(9).sq_sig_all(true);
    // naming a shared receive queue drops the receive queue
    assert!(options.recv_cq.is_none());
    assert_eq!(options.srq.unwrap().id, srq.handle.id());
    assert_eq!(options.sq_sig_all, 1);
    let mut back = options;
    back.recv_cq(&cq);
    assert!(back.srq.is_none());
    assert!(back.recv_cq.is_some());
    let qp = QueuePair::create(&mut table, options, 0x400, 0, 3).unwrap();
    assert_eq!(qp.user_data(), 9);
    assert!(qp.recv_cq().is_none());
    assert_eq!(table.record(cq.handle.id()).unwrap().children, 1);
    assert_eq!(table.record(srq.handle.id()).unwrap().children, 1);
    ctx.release(&mut table).unwrap();
    pd.release(&mut table).unwrap();
    cq.release(&mut table).unwrap();
    srq.release(&mut table).unwrap();
    let owed = qp.release(&mut table).unwrap();
    assert_eq!(
        owed,
        vec![
            gone(ResourceKind::QueuePair, 0x400),
            gone(ResourceKind::CompletionQueue, 0x300),
            gone(ResourceKind::SharedReceiveQueue, 0x800),
            gone(ResourceKind::ProtectionDomain, 0x200),
            gone(ResourceKind::Context, 0x100),
        ]
    );
}

#[test]
fn path_mtu_goes_into_the_mask() {
    let mut modify = ModifyOptions::default();
    assert_eq!(modify.mask(), 0);
    modify.path_mtu(Mtu::Mtu1024).dest_qp_num(9).rq_psn(3).max_dest_rd_atomic(1).min_rnr_timer(12);
    assert_eq!(modify.mask(), 0x100 | 0x100000 | 0x1000 | 0x20000 | 0x8000);
    assert_eq!(modify.attr.path_mtu, 3);
    assert_eq!(modify.attr.dest_qp_num, 9);
    let mut more = ModifyOptions::default();
    more.timeout(14).retry_cnt(7).rnr_retry(6).sq_psn(5).max_rd_atomic(2).pkey_index(1).qkey(8);
    assert_eq!(more.mask(), 0x200 | 0x400 | 0x800 | 0x10000 | 0x2000 | 0x10 | 0x40);
    let mut av = ModifyOptions::default();
    let mut ah = ibverbs::ah::AddressHandle::options();
    ah.dest_lid(4).port_num(1);
    av.ah_attr(ah);
    assert_eq!(av.mask(), 0x80);
    assert_eq!(av.attr.ah_attr.dest_lid, 4);
    // setting an attribute twice keeps one bit and the later value
    av.ah_attr(ibverbs::ah::AddressHandle::options());
    assert_eq!(av.mask(), 0x80);
    assert_eq!(av.attr.ah_attr.dest_lid, 0);
}
