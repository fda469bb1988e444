//! Ports, addresses, facade decisions, socket-slot bookkeeping and the
//! reactor's tick decisions.

use tokio_smoltcp::device::Medium;
use tokio_smoltcp::reactor::{
    needs_close, poll_again, tick_continues, wait_deadline_ms, PollOutcome, WakeEvent,
    DEFAULT_TIMEOUT_MS,
};
use tokio_smoltcp::socket::{
    accept_swap, ep2sa, sa2ep, poll_established_step, poll_flush_step, poll_read_step,
    poll_recv_from_step, poll_send_to_step, poll_shutdown_step, poll_write_step, CompletionStep,
    ReadStep, RecvFromStep, RecvOutcome, SendOutcome, SendToStep, TcpState, WakerSlot, WriteStep,
};
use tokio_smoltcp::socket_allocator::{
    BufferSize, IpProtocol, IpVersion, SocketAlloctor, SocketKind,
};
use tokio_smoltcp::wire::{EthernetAddress, IpAddress, IpCidr, IpEndpoint, SocketAddr};
use tokio_smoltcp::{
    interface_plan, port_successor, set_address, EphemeralPorts, NetConfig, RouteCmd,
    EPHEMERAL_PORT_FIRST, EPHEMERAL_PORT_LAST,
};

#[test]
fn ephemeral_ports_start_at_band_start_and_step_by_one() {
    let mut ports = EphemeralPorts::new();
    assert_eq!(ports.get_port(), 10001);
    assert_eq!(ports.get_port(), 10002);
    assert_eq!(ports.get_port(), 10003);
}

#[test]
fn ephemeral_ports_stay_in_band_over_a_full_cycle() {
    let mut ports = EphemeralPorts::new();
    let mut prev = ports.get_port();
    let band = (EPHEMERAL_PORT_LAST - EPHEMERAL_PORT_FIRST + 1) as u32;
    for _ in 0..band {
        let p = ports.get_port();
        assert!((EPHEMERAL_PORT_FIRST..=EPHEMERAL_PORT_LAST).contains(&p));
        if prev == EPHEMERAL_PORT_LAST {
            assert_eq!(p, EPHEMERAL_PORT_FIRST);
        } else {
            assert_eq!(p, prev + 1);
        }
        prev = p;
    }
}

#[test]
fn port_successor_wraps_at_band_end() {
    assert_eq!(port_successor(10001), 10002);
    assert_eq!(port_successor(59999), 60000);
    assert_eq!(port_successor(60000), 10001);
}

#[test]
fn ep2sa_keeps_address_and_port() {
    let v4 = IpEndpoint { addr: IpAddress::V4([172, 19, 44, 33]), port: 8000 };
    let sa = ep2sa(&v4);
    assert_eq!(sa, SocketAddr { ip: IpAddress::V4([172, 19, 44, 33]), port: 8000 });
    let v6 = IpEndpoint { addr: IpAddress::V6([0xfe80, 0, 0, 0, 0, 0, 0, 1]), port: 53 };
    let sa6 = ep2sa(&v6);
    assert_eq!(sa6, SocketAddr { ip: IpAddress::V6([0xfe80, 0, 0, 0, 0, 0, 0, 1]), port: 53 });
}

#[test]
fn sa2ep_inverts_ep2sa() {
    let ep = IpEndpoint { addr: IpAddress::V4([10, 0, 0, 1]), port: 80 };
    assert_eq!(sa2ep(&ep2sa(&ep)), ep);
    let sa = SocketAddr { ip: IpAddress::V6([0, 0, 0, 0, 0, 0, 0, 1]), port: 443 };
    assert_eq!(ep2sa(&sa2ep(&sa)), sa);
}

#[test]
fn only_the_all_zero_address_is_unspecified() {
    assert!(IpAddress::V4([0, 0, 0, 0]).is_unspecified());
    assert!(IpAddress::V6([0; 8]).is_unspecified());
    assert!(!IpAddress::V4([0, 0, 0, 1]).is_unspecified());
    assert!(!IpAddress::V6([0, 0, 0, 0, 0, 0, 0, 1]).is_unspecified());
}

#[test]
fn set_address_rewrites_unspecified_ip_and_zero_port() {
    let mut ports = EphemeralPorts::new();
    let local = IpAddress::V4([172, 19, 44, 33]);
    let r = set_address(local, &mut ports, SocketAddr { ip: IpAddress::V4([0, 0, 0, 0]), port: 0 });
    assert_eq!(r.ip, local);
    assert_eq!(r.port, 10001);
    let r2 = set_address(local, &mut ports, SocketAddr { ip: IpAddress::V6([0; 8]), port: 0 });
    assert_eq!(r2.ip, local);
    assert_eq!(r2.port, 10002);
}

#[test]
fn set_address_keeps_what_the_caller_specified() {
    let mut ports = EphemeralPorts::new();
    let local = IpAddress::V4([172, 19, 44, 33]);
    let given = SocketAddr { ip: IpAddress::V4([10, 0, 0, 5]), port: 12345 };
    assert_eq!(set_address(local, &mut ports, given), given);
    assert_eq!(ports.get_port(), 10001);
}

#[test]
fn read_decision_table() {
    assert_eq!(poll_read_step(false, false), ReadStep::Eof);
    assert_eq!(poll_read_step(false, true), ReadStep::Eof);
    assert_eq!(poll_read_step(true, true), ReadStep::Recv);
    assert_eq!(poll_read_step(true, false), ReadStep::Wait(WakerSlot::Recv));
}

#[test]
fn write_decision_table() {
    assert_eq!(poll_write_step(false, false), WriteStep::BrokenPipe);
    assert_eq!(poll_write_step(false, true), WriteStep::BrokenPipe);
    assert_eq!(poll_write_step(true, true), WriteStep::Send);
    assert_eq!(poll_write_step(true, false), WriteStep::Wait(WakerSlot::Send));
}

#[test]
fn flush_waits_only_for_local_queue_drain() {
    assert_eq!(poll_flush_step(0), CompletionStep::Ready);
    assert_eq!(poll_flush_step(1), CompletionStep::Wait(WakerSlot::Send));
    assert_eq!(poll_flush_step(8192), CompletionStep::Wait(WakerSlot::Send));
}

#[test]
fn shutdown_completes_only_when_closed() {
    assert_eq!(poll_shutdown_step(TcpState::Closed), CompletionStep::Ready);
    assert_eq!(poll_shutdown_step(TcpState::FinWait1), CompletionStep::Wait(WakerSlot::Send));
    assert_eq!(poll_shutdown_step(TcpState::Established), CompletionStep::Wait(WakerSlot::Send));
}

#[test]
fn connect_and_accept_complete_only_when_established() {
    assert_eq!(poll_established_step(TcpState::Established), CompletionStep::Ready);
    assert_eq!(poll_established_step(TcpState::SynSent), CompletionStep::Wait(WakerSlot::Send));
    assert_eq!(poll_established_step(TcpState::Listen), CompletionStep::Wait(WakerSlot::Send));
}

#[test]
fn datagram_send_decision_table() {
    assert_eq!(poll_send_to_step(SendOutcome::Sent), SendToStep::NotifyAndComplete);
    assert_eq!(poll_send_to_step(SendOutcome::Truncated), SendToStep::Wait(WakerSlot::Send));
    assert_eq!(poll_send_to_step(SendOutcome::Failed), SendToStep::Fail);
}

#[test]
fn datagram_recv_decision_table() {
    let src = IpEndpoint { addr: IpAddress::V4([114, 114, 114, 114]), port: 53 };
    assert_eq!(
        poll_recv_from_step(RecvOutcome::Received { size: 5, source: src }),
        RecvFromStep::Complete {
            size: 5,
            source: SocketAddr { ip: IpAddress::V4([114, 114, 114, 114]), port: 53 },
        }
    );
    assert_eq!(poll_recv_from_step(RecvOutcome::Exhausted), RecvFromStep::Wait(WakerSlot::Recv));
    assert_eq!(poll_recv_from_step(RecvOutcome::Failed), RecvFromStep::Fail);
}

#[test]
fn buffer_size_defaults() {
    let bs = BufferSize::default();
    assert_eq!(bs.tcp_rx_size, 8192);
    assert_eq!(bs.tcp_tx_size, 8192);
    assert_eq!(bs.udp_rx_size, 8192);
    assert_eq!(bs.udp_tx_size, 8192);
    assert_eq!(bs.udp_rx_meta_size, 32);
    assert_eq!(bs.udp_tx_meta_size, 32);
    assert_eq!(bs.raw_rx_size, 8192);
    assert_eq!(bs.raw_tx_size, 8192);
    assert_eq!(bs.raw_rx_meta_size, 32);
    assert_eq!(bs.raw_tx_meta_size, 32);
}

#[test]
fn sockets_are_born_with_configured_buffers() {
    let mut alloc = SocketAlloctor::new(BufferSize::default());
    let t = alloc.new_tcp_socket();
    let u = alloc.new_udp_socket();
    let r = alloc.new_raw_socket(IpVersion::Ipv4, IpProtocol(17));
    let tm = alloc.get(t);
    assert_eq!(tm.kind, SocketKind::Tcp);
    assert_eq!((tm.rx_size, tm.tx_size), (8192, 8192));
    assert_eq!((tm.rx_meta_size, tm.tx_meta_size), (0, 0));
    assert_eq!(tm.bound, None);
    let um = alloc.get(u);
    assert_eq!(um.kind, SocketKind::Udp);
    assert_eq!((um.rx_meta_size, um.tx_meta_size), (32, 32));
    let rm = alloc.get(r);
    assert_eq!(rm.kind, SocketKind::Raw { ip_version: IpVersion::Ipv4, ip_protocol: IpProtocol(17) });
}

#[test]
fn create_drop_cycles_leak_no_slots() {
    let mut alloc = SocketAlloctor::new(BufferSize::default());
    let keeper = alloc.new_tcp_socket();
    assert_eq!(alloc.live_sockets(), 1);
    for _ in 0..100 {
        let h = alloc.new_udp_socket();
        assert_eq!(alloc.live_sockets(), 2);
        alloc.remove(h);
        assert_eq!(alloc.live_sockets(), 1);
    }
    let m = alloc.get(keeper);
    assert_eq!(m.kind, SocketKind::Tcp);
}

#[test]
fn freed_slots_are_reused_first() {
    let mut alloc = SocketAlloctor::new(BufferSize::default());
    let a = alloc.new_tcp_socket();
    let b = alloc.new_udp_socket();
    assert_ne!(a, b);
    alloc.remove(a);
    let c = alloc.new_raw_socket(IpVersion::Ipv6, IpProtocol(6));
    assert_eq!(c, a);
    assert_eq!(alloc.live_sockets(), 2);
    alloc.remove(b);
    alloc.remove(c);
    assert_eq!(alloc.live_sockets(), 0);
}

#[test]
fn listener_still_listens_after_many_accepts() {
    let mut alloc = SocketAlloctor::new(BufferSize::default());
    let local = IpEndpoint { addr: IpAddress::V4([0, 0, 0, 0]), port: 12345 };
    let mut listener = alloc.new_tcp_socket();
    alloc.set_bound(listener, local);
    for k in 0..10 {
        let stream = accept_swap(&mut alloc, &mut listener, local);
        assert_ne!(stream, listener);
        let lm = alloc.get(listener);
        assert_eq!(lm.kind, SocketKind::Tcp);
        assert_eq!(lm.bound, Some(local));
        assert_eq!(alloc.live_sockets(), k + 2);
    }
}

#[test]
fn interface_plan_follows_medium_and_gateways() {
    let config = NetConfig {
        ethernet_addr: EthernetAddress([2, 0, 0, 0, 0, 1]),
        ip_addr: IpCidr { address: IpAddress::V4([172, 19, 44, 33]), prefix_len: 20 },
        gateway: vec![
            IpAddress::V4([172, 19, 32, 1]),
            IpAddress::V6([0xfe80, 0, 0, 0, 0, 0, 0, 1]),
        ],
        buffer_size: BufferSize::default(),
        neighbor_cache: vec![],
    };
    let plan = interface_plan(Medium::Ethernet, &config);
    assert!(plan.uses_hardware_addr);
    assert_eq!(
        plan.routes,
        vec![
            RouteCmd::DefaultV4(IpAddress::V4([172, 19, 32, 1])),
            RouteCmd::DefaultV6(IpAddress::V6([0xfe80, 0, 0, 0, 0, 0, 0, 1])),
        ]
    );
    let plan_ip = interface_plan(Medium::Ip, &config);
    assert!(!plan_ip.uses_hardware_addr);
}

#[test]
fn reactor_deadline_defaults_to_safety_net() {
    assert_eq!(wait_deadline_ms(Some(250)), 250);
    assert_eq!(wait_deadline_ms(None), DEFAULT_TIMEOUT_MS);
}

#[test]
fn reactor_stops_only_on_stop_signal() {
    assert!(tick_continues(WakeEvent::DeadlineExpired));
    assert!(tick_continues(WakeEvent::FrameArrived));
    assert!(tick_continues(WakeEvent::Notified));
    assert!(!tick_continues(WakeEvent::Stopped));
}

#[test]
fn engine_poll_retries_only_on_ignored_errors() {
    assert!(!poll_again(PollOutcome::Completed));
    assert!(!poll_again(PollOutcome::Exhausted));
    assert!(poll_again(PollOutcome::Failed));
}

#[test]
fn teardown_closes_tcp_and_udp_but_not_raw() {
    assert!(needs_close(SocketKind::Tcp));
    assert!(needs_close(SocketKind::Udp));
    assert!(!needs_close(SocketKind::Raw { ip_version: IpVersion::Ipv4, ip_protocol: IpProtocol(6) }));
}
