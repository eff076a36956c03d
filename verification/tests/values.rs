use ibverbs::ah::{AddressHandle, AddressHandleOptions, GlobalRoute};
use ibverbs::ctx::Context;
use ibverbs::device::device_attr::DeviceAttr;
use ibverbs::device::device_list::{Device, DeviceList};
use ibverbs::device::gid::{Gid, GidEntry, GidType};
use ibverbs::device::guid::Guid;
use ibverbs::device::port_attr::{LinkLayer, Mtu, PortAttr, PortState};
use ibverbs::error::{check_status, create_resource, custom_error, from_errno, last_error, post_status, Error};
use ibverbs::mr::AccessFlags;
use ibverbs::mw::MemoryWindowType;
use ibverbs::pd::ProtectionDomain;
use ibverbs::qp::{QueuePairState, QueuePairType};
use ibverbs::resource::{link_allowed, ResourceKind};
use ibverbs::table::ResourceTable;
use ibverbs::wc::{Opcode, WorkCompletion, WorkCompletionError};
use ibverbs::wr::{RecvRequest, SendFlags, SendRequest, Sge};

#[test]
fn completion_opcodes_round_trip() {
    let all = [
        (Opcode::Send, 0),
        (Opcode::RdmaWrite, 1),
        (Opcode::RdmaRead, 2),
        (Opcode::CompSwap, 3),
        (Opcode::FetchAdd, 4),
        (Opcode::BindMw, 5),
        (Opcode::LocalInv, 6),
        (Opcode::Tso, 7),
        (Opcode::Recv, 128),
        (Opcode::RecvRdmaWithImm, 129),
        (Opcode::TmAdd, 130),
        (Opcode::TmDel, 131),
        (Opcode::TmSync, 132),
        (Opcode::TmRecv, 133),
        (Opcode::TmNoTag, 134),
        (Opcode::Driver1, 135),
        (Opcode::Driver2, 136),
        (Opcode::Driver3, 137),
    ];
    for (op, raw) in all {
        assert_eq!(op.to_c_uint(), raw);
        assert_eq!(Opcode::try_from(raw), Ok(op));
    }
    for raw in 0..300u32 {
        match Opcode::try_from(raw) {
            Ok(op) => assert_eq!(op.to_c_uint(), raw),
            Err(()) => assert!(all.iter().all(|(_, r)| *r != raw)),
        }
    }
    assert_eq!(Opcode::try_from(8), Err(()));
    assert_eq!(Opcode::try_from(127), Err(()));
    assert_eq!(Opcode::try_from(138), Err(()));
    assert_eq!(Opcode::try_from(u32::MAX), Err(()));
}

#[test]
fn completion_statuses_round_trip() {
    for raw in 1..=23u32 {
        let e = WorkCompletionError::try_from(raw).unwrap();
        assert_eq!(e.to_c_uint(), raw);
        assert_eq!(WorkCompletionError::result(raw), Err(e));
    }
    assert_eq!(WorkCompletionError::try_from(0), Err(()));
    assert_eq!(WorkCompletionError::try_from(24), Err(()));
    assert_eq!(WorkCompletionError::result(0), Ok(()));
    assert_eq!(WorkCompletionError::result(5), Err(WorkCompletionError::WRFlush));
    assert_eq!(WorkCompletionError::result(12), Err(WorkCompletionError::RetryExceeded));
    assert_eq!(WorkCompletionError::LocalLength.to_c_uint(), 1);
    assert_eq!(WorkCompletionError::TagMatchingRndvIncomplete.to_c_uint(), 23);
    assert_eq!(WorkCompletionError::Fatal.name(), "Fatal");
    assert_eq!(WorkCompletionError::RnrRetryExceeded.name(), "RnrRetryExceeded");
}

#[test]
fn queue_pair_states_round_trip() {
    let all = [
        QueuePairState::Reset,
        QueuePairState::Initialize,
        QueuePairState::ReadyToReceive,
        QueuePairState::ReadyToSend,
        QueuePairState::SendQueueDrained,
        QueuePairState::SendQueueError,
        QueuePairState::Error,
        QueuePairState::Unknown,
    ];
    for (raw, state) in all.iter().enumerate() {
        assert_eq!(state.to_c_uint(), raw as u32);
        assert_eq!(QueuePairState::try_from(raw as u32), Ok(*state));
    }
    assert_eq!(QueuePairState::try_from(8), Err(()));
    assert_eq!(QueuePairState::try_from(u32::MAX), Err(()));
}

#[test]
fn port_values_round_trip() {
    let mtus = [Mtu::Mtu256, Mtu::Mtu512, Mtu::Mtu1024, Mtu::Mtu2048, Mtu::Mtu4096];
    for (i, mtu) in mtus.iter().enumerate() {
        let raw = i as u32 + 1;
        assert_eq!(mtu.to_c_uint(), raw);
        assert_eq!(Mtu::try_from(raw), Ok(*mtu));
        assert_eq!(mtu.size(), 1usize << (raw + 7));
    }
    assert_eq!(Mtu::Mtu256.size(), 256);
    assert_eq!(Mtu::Mtu4096.size(), 4096);
    assert_eq!(Mtu::try_from(0), Err(()));
    assert_eq!(Mtu::try_from(6), Err(()));

    let layers = [LinkLayer::Unspecified, LinkLayer::Infiniband, LinkLayer::Ethernet];
    for (raw, layer) in layers.iter().enumerate() {
        assert_eq!(layer.to_c_uint(), raw as u32);
        assert_eq!(LinkLayer::try_from(raw as u32), Ok(*layer));
    }
    assert_eq!(LinkLayer::try_from(3), Err(()));

    let states = [
        PortState::Nop,
        PortState::Down,
        PortState::Init,
        PortState::Armed,
        PortState::Active,
        PortState::ActiveDefer,
    ];
    for (raw, state) in states.iter().enumerate() {
        assert_eq!(state.to_c_uint(), raw as u32);
        assert_eq!(PortState::try_from(raw as u32), Ok(*state));
    }
    assert_eq!(PortState::try_from(6), Err(()));

    let kinds = [GidType::IB, GidType::RoceV1, GidType::RoceV2];
    for (raw, kind) in kinds.iter().enumerate() {
        assert_eq!(kind.to_c_uint(), raw as u32);
        assert_eq!(GidType::try_from(raw as u32), Ok(*kind));
    }
    assert_eq!(GidType::try_from(3), Err(()));

    assert_eq!(MemoryWindowType::Type1.to_c_uint(), 1);
    assert_eq!(MemoryWindowType::try_from(2), Ok(MemoryWindowType::Type2));
    assert_eq!(MemoryWindowType::try_from(0), Err(()));

    assert_eq!(QueuePairType::RC.to_c_uint(), 2);
    assert_eq!(QueuePairType::UC.to_c_uint(), 3);
    assert_eq!(QueuePairType::UD.to_c_uint(), 4);
    assert_eq!(QueuePairType::XrcSend.to_c_uint(), 9);
    assert_eq!(QueuePairType::XrcRecv.to_c_uint(), 10);
    assert_eq!(QueuePairType::Driver.to_c_uint(), 255);

    assert_eq!(ibverbs::wr::Opcode::Write.to_c_uint(), 0);
    assert_eq!(ibverbs::wr::Opcode::Send.to_c_uint(), 2);
    assert_eq!(ibverbs::wr::Opcode::SendWithImm.to_c_uint(), 3);
    assert_eq!(ibverbs::wr::Opcode::Read.to_c_uint(), 4);
    assert_eq!(ibverbs::wr::Opcode::AtomicCAS.to_c_uint(), 5);
    assert_eq!(ibverbs::wr::Opcode::AtomicFetchAdd.to_c_uint(), 6);
}

#[test]
fn port_attributes() {
    let raw = PortAttr { state: 4, active_mtu: 5, gid_tbl_len: 128, lid: 9, link_layer: 2 };
    let attr = PortAttr::query(0, raw).unwrap();
    assert!(attr.is_decodable());
    assert_eq!(attr.state(), PortState::Active);
    assert_eq!(attr.active_mtu(), Mtu::Mtu4096);
    assert_eq!(attr.link_layer(), LinkLayer::Ethernet);
    assert_eq!(attr.gid_table_len(), 128);
    assert_eq!(attr.lid(), 9);
    assert_eq!(PortAttr::query(19, raw), Err(Error::Operation { code: 19 }));
    let odd = PortAttr { state: 9, active_mtu: 5, gid_tbl_len: -1, lid: 0, link_layer: 2 };
    assert!(!odd.is_decodable());
    assert_eq!(odd.gid_table_len(), u32::MAX);
    let attr = DeviceAttr { max_qp: 1, max_cq: 2, max_mr: 3, max_pd: 4, phys_port_cnt: 1 };
    assert_eq!(DeviceAttr::query(0, attr), Ok(attr));
    assert_eq!(DeviceAttr::query(-3, attr), Err(Error::Operation { code: -3 }));
}

#[test]
fn guid_and_gid_bytes() {
    let g = Guid::from_bytes([1, 2, 3, 4, 5, 6, 7, 8]);
    assert_eq!(g.as_bytes(), &[1, 2, 3, 4, 5, 6, 7, 8]);
    assert_eq!(g, Guid::from_bytes([1, 2, 3, 4, 5, 6, 7, 8]));
    assert_ne!(g, Guid::from_bytes([1, 2, 3, 4, 5, 6, 7, 9]));

    let bytes = [0xfe, 0x80, 0, 0, 0, 0, 0, 0, 0x02, 0x11, 0x22, 0xff, 0xfe, 0x33, 0x44, 0x55];
    let gid = Gid::from_bytes(bytes);
    assert_eq!(gid.as_bytes(), &bytes);
    assert_eq!(gid.to_ipv6_segments(), [0xfe80, 0, 0, 0, 0x0211, 0x22ff, 0xfe33, 0x4455]);
    let mut head = [0u8; 8];
    head.copy_from_slice(&bytes[..8]);
    let mut tail = [0u8; 8];
    tail.copy_from_slice(&bytes[8..]);
    assert_eq!(gid.subnet_prefix(), u64::from_ne_bytes(head));
    assert_eq!(gid.interface_id(), u64::from_ne_bytes(tail));
    assert!(
        gid.subnet_prefix() == 0xfe80_0000_0000_0000 || gid.subnet_prefix() == 0x0000_0000_0000_80fe
    );
    assert!(gid == Gid::from_bytes(bytes));
    let mut other = bytes;
    other[15] = 0;
    assert!(gid != Gid::from_bytes(other));

    let entry = GidEntry { gid, gid_index: 1, port_num: 1, gid_type: 2, ndev_ifindex: 4 };
    let got = GidEntry::query(0, entry).unwrap();
    assert!(got.has_gid_type());
    assert_eq!(got.gid_type(), GidType::RoceV2);
    assert!(got.gid() == gid);
    assert!(matches!(
        GidEntry::query(1, entry),
        Err(Error::Custom { label: "failed to query gid entry" })
    ));
    let odd = GidEntry { gid_type: 7, ..entry };
    assert!(!odd.has_gid_type());
}

#[test]
fn device_list() {
    let device = |raw: usize, name: &str| Device {
        raw,
        name: name.to_string(),
        guid: Guid::from_bytes([raw as u8; 8]),
    };
    assert!(DeviceList::is_addressable(0));
    assert!(DeviceList::is_addressable(2));
    assert!(!DeviceList::is_addressable(-1));
    let list = DeviceList::available(0x9000, 0, 2, vec![device(1, "mlx5_0"), device(2, "rxe0")]).unwrap();
    assert_eq!(list.ffi_ptr(), 0x9000);
    assert_eq!(list.as_slice().len(), 2);
    assert_eq!(list.as_slice()[1].name(), "rxe0");
    assert_eq!(list.as_slice()[0].guid(), Guid::from_bytes([1; 8]));
    assert_eq!(list.as_slice()[0].ffi_ptr(), 1);
    let empty = DeviceList::available(0x9000, 0, 0, vec![]).unwrap();
    assert!(empty.as_slice().is_empty());
    let r = DeviceList::available(0, 38, 0, vec![]);
    assert!(matches!(r, Err(Error::Operation { code: 38 })));

    let mut table = ResourceTable::new();
    let ctx = list.as_slice()[0].open(&mut table, 0x100, 0).unwrap();
    assert_eq!(ctx.ffi_ptr(), 0x100);
    assert!(matches!(
        list.as_slice()[1].open(&mut table, 0, 2),
        Err(Error::Creation { code: 2, label: "failed to open device" })
    ));
}

#[test]
fn access_flags() {
    let both = AccessFlags::local_write().union(AccessFlags::remote_read());
    assert_eq!(both.bits(), 5);
    assert!(both.contains(AccessFlags::local_write()));
    assert!(both.contains(AccessFlags::remote_read()));
    assert!(!both.contains(AccessFlags::remote_write()));
    assert!(AccessFlags::empty().is_empty());
    assert!(!both.is_empty());
    assert_eq!(AccessFlags::remote_write().bits(), 2);
    assert_eq!(AccessFlags::remote_atomic().bits(), 8);
    assert_eq!(AccessFlags::mw_bind().bits(), 16);
    assert_eq!(AccessFlags::zero_based().bits(), 32);
    assert_eq!(AccessFlags::on_demand().bits(), 64);
    assert_eq!(AccessFlags::hugetlb().bits(), 128);
    assert_eq!(AccessFlags::relaxed_ordering().bits(), 1 << 20);
    assert_eq!(AccessFlags::all().bits(), 0x1000ff);
    assert_eq!(AccessFlags::from_bits(5), Some(both));
    assert_eq!(AccessFlags::from_bits(0x100), None);
    assert_eq!(AccessFlags::from_bits_truncate(0x105), both);
    assert_eq!(SendFlags::fence().bits(), 1);
    assert_eq!(SendFlags::signaled().bits(), 2);
    assert_eq!(SendFlags::solicited().bits(), 4);
    assert_eq!(SendFlags::inline_data().bits(), 8);
    assert_eq!(SendFlags::ip_csum().bits(), 16);
    assert_eq!(SendFlags::all().bits(), 31);
    assert_eq!(SendFlags::from_bits(32), None);
    assert_eq!(SendFlags::signaled().union(SendFlags::inline_data()).to_c_uint(), 10);
}

#[test]
fn error_sorting() {
    assert_eq!(create_resource(0x42, 5, "x"), Ok(0x42));
    assert_eq!(create_resource(0, 5, "x"), Err(Error::Creation { code: 5, label: "x" }));
    assert_eq!(from_errno(7), Error::Operation { code: 7 });
    assert_eq!(last_error(9), Error::Operation { code: 9 });
    assert_eq!(custom_error("y"), Error::Custom { label: "y" });
    assert_eq!(check_status(0), Ok(()));
    assert_eq!(check_status(-4), Err(Error::Operation { code: -4 }));
    assert_eq!(post_status(0, 99, Some(1)), Ok(()));
    assert_eq!(post_status(5, 0, None), Err(Error::Post { code: 5, first_bad: None }));
    assert_eq!(post_status(-5, 0, Some(2)), Err(Error::Post { code: 5, first_bad: Some(2) }));
    assert_eq!(post_status(-5, 11, None), Err(Error::Post { code: 11, first_bad: None }));
    assert_eq!(post_status(i32::MIN, 0, None), Err(Error::Post { code: i32::MIN, first_bad: None }));
    assert_eq!(Error::Released.code(), None);
    assert_eq!(Error::Exhausted.label(), None);
    assert_eq!(Error::Creation { code: 1, label: "z" }.label(), Some("z"));
    assert_eq!(Error::Custom { label: "w" }.label(), Some("w"));
    assert_eq!(Error::Creation { code: 1, label: "z" }.code(), Some(1));
}

#[test]
fn send_request_fields() {
    let mut table = ResourceTable::new();
    let ctx = Context::open(&mut table, 0x100, 0).unwrap();
    let pd = ProtectionDomain::allocate(&mut table, &ctx, 0x200, 0).unwrap();
    let mut options = AddressHandle::options();
    options.dest_lid(3).service_level(1).port_num(2);
    assert_eq!(options.is_global(), 0);
    options.global_route_header(GlobalRoute {
        dest_gid: Gid::from_bytes([7; 16]),
        flow_label: 1,
        sgid_index: 2,
        hop_limit: 64,
        traffic_class: 0,
    });
    assert_eq!(options.is_global(), 1);
    assert_eq!(options.dest_lid, 3);
    assert_eq!(AddressHandleOptions::default().port_num, 0);
    let ah = AddressHandle::create(&mut table, &pd, 0xa000, 0).unwrap();

    let sges = [Sge { addr: 0x1000, length: 64, lkey: 9 }, Sge { addr: 0x2000, length: 32, lkey: 9 }];
    let mut wr = SendRequest::zeroed();
    wr.id(42)
        .sg_list(&sges)
        .opcode(ibverbs::wr::Opcode::SendWithImm)
        .send_flags(SendFlags::signaled().union(SendFlags::solicited()))
        .imm_data(0xabcd);
    assert_eq!(wr.wr_id, 42);
    assert_eq!(wr.num_sge, 2);
    assert_eq!(wr.sg_list, sges.to_vec());
    assert_eq!(wr.opcode, 3);
    assert_eq!(wr.send_flags, 6);
    assert_eq!(wr.imm_data, 0xabcd);

    // the two kinds of target share their memory
    wr.rdma_remote_addr(0xdead_0000).rdma_rkey(5);
    assert_eq!(wr.wr.addr_or_ah, 0xdead_0000);
    assert_eq!(wr.wr.rkey_or_qpn, 5);
    wr.ud_ah(&ah).ud_remote_qpn(17).ud_remote_qkey(0x1111);
    assert_eq!(wr.wr.addr_or_ah, 0xa000);
    assert_eq!(wr.wr.rkey_or_qpn, 17);
    assert_eq!(wr.wr.qkey, 0x1111);

    let mut third = SendRequest::zeroed();
    third.id(3);
    let mut second = SendRequest::zeroed();
    second.id(2).next(third);
    wr.next(second);
    assert!(wr.has_position(0));
    assert!(wr.has_position(2));
    assert!(!wr.has_position(3));
    assert_eq!(wr.next.as_ref().unwrap().next.as_ref().unwrap().wr_id, 3);

    let mut recv = RecvRequest::zeroed();
    let mut follower = RecvRequest::zeroed();
    follower.id(8);
    recv.id(7).sg_list(&sges[..1]).next(follower);
    assert_eq!(recv.wr_id, 7);
    assert_eq!(recv.num_sge, 1);
    assert!(recv.has_position(1));
    assert!(!recv.has_position(2));
}

#[test]
fn post_reports_the_first_refused_request() {
    let mut table = ResourceTable::new();
    let qp = ibverbs::qp::QueuePair::create(&mut table, ibverbs::qp::QueuePair::options(), 0x400, 0, 5).unwrap();
    let mut second = SendRequest::zeroed();
    second.id(2);
    let mut first = SendRequest::zeroed();
    first.id(1).next(second);
    assert_eq!(
        qp.post_send(&first, 12, 0, Some(1)),
        Err(Error::Post { code: 12, first_bad: Some(1) })
    );
    assert_eq!(qp.post_send(&first, 12, 0, Some(2)), Err(Error::Post { code: 12, first_bad: None }));
    let recv = RecvRequest::zeroed();
    assert_eq!(qp.post_recv(&recv, 0, 0, None), Ok(()));
    assert_eq!(qp.post_recv(&recv, -12, 0, Some(0)), Err(Error::Post { code: 12, first_bad: Some(0) }));
    assert_eq!(qp.post_recv(&recv, 1, 4, Some(1)), Err(Error::Post { code: 4, first_bad: None }));
}

#[test]
fn completion_fields() {
    let wc = WorkCompletion { wr_id: 5, status: 0, opcode: 129, byte_len: 100, wc_flags: 2, imm_data: 77 };
    assert_eq!(wc.wr_id(), 5);
    assert_eq!(wc.status(), 0);
    assert_eq!(wc.byte_len(), 100);
    assert!(wc.has_opcode());
    assert_eq!(wc.opcode(), Opcode::RecvRdmaWithImm);
    assert_eq!(wc.imm_data(), Some(77));
    let plain = WorkCompletion { wc_flags: 1 | 4, ..wc };
    assert_eq!(plain.imm_data(), None);
    let odd = WorkCompletion { opcode: 99, ..wc };
    assert!(!odd.has_opcode());
}

#[test]
fn dependency_positions() {
    assert!(link_allowed(ResourceKind::Context, 0, None));
    assert!(!link_allowed(ResourceKind::Context, 0, Some(ResourceKind::Context)));
    assert!(link_allowed(ResourceKind::ProtectionDomain, 0, Some(ResourceKind::Context)));
    assert!(!link_allowed(ResourceKind::ProtectionDomain, 0, None));
    assert!(link_allowed(ResourceKind::CompletionQueue, 0, None));
    assert!(link_allowed(ResourceKind::CompletionQueue, 0, Some(ResourceKind::CompChannel)));
    assert!(link_allowed(ResourceKind::CompletionQueue, 1, Some(ResourceKind::Context)));
    assert!(!link_allowed(ResourceKind::CompletionQueue, 1, None));
    assert!(link_allowed(ResourceKind::QueuePair, 3, Some(ResourceKind::SharedReceiveQueue)));
    assert!(!link_allowed(ResourceKind::QueuePair, 1, Some(ResourceKind::ProtectionDomain)));
    assert!(link_allowed(ResourceKind::MemoryRegion, 0, Some(ResourceKind::ProtectionDomain)));
    assert_eq!(ResourceKind::Context.depth(), 0);
    assert_eq!(ResourceKind::QueuePair.depth(), 4);
}
