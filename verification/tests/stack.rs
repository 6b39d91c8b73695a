use smoltcp_c::boundary::add_smoltcp_tcp_socket;
use smoltcp_c::boundary::destroy_smoltcp_stack;
use smoltcp_c::boundary::has_stack;
use smoltcp_c::boundary::make_add_smoltcp_tcp_socket;
use smoltcp_c::boundary::make_smoltcp_stack;
use smoltcp_c::boundary::make_smoltcp_tcp_socket;
use smoltcp_c::boundary::poll_smoltcp_stack;
use smoltcp_c::boundary::smoltcp_send_tcp_data;
use smoltcp_c::boundary::stack_hardware_octets;
use smoltcp_c::boundary::stack_protocol_octets;
use smoltcp_c::boundary::stack_recorded_active;
use smoltcp_c::boundary::stack_socket_count;
use smoltcp_c::boundary::stack_socket_port;
use smoltcp_c::boundary::StackTable;
use smoltcp_c::socket::AppMode;
use smoltcp_c::socket::Delivery;
use smoltcp_c::socket::SocketEvent;
use smoltcp_c::socket::SocketStatus;
use smoltcp_c::socket::ECHO_PORT;
use smoltcp_c::socket::RX_BUFFER_CAPACITY;
use smoltcp_c::socket::TX_BUFFER_CAPACITY;

fn idle_status() -> SocketStatus {
    SocketStatus { open: true, active: false, may_recv: false, may_send: true, can_send: true }
}

fn established_status() -> SocketStatus {
    SocketStatus { open: true, active: true, may_recv: true, may_send: true, can_send: true }
}

#[test]
fn it_works() {
    let mut t = StackTable::new();
    let s = make_smoltcp_stack(&mut t, 3, "02:00:00:00:00:01", "192.168.69.1", AppMode::Forward);
    assert!(s != 0);
    let steps = poll_smoltcp_stack(&mut t, s, 44, Vec::new());
    assert!(steps.is_empty());
}

#[test]
fn create_stack_valid_pairs() {
    let mut t = StackTable::new();
    let a = make_smoltcp_stack(&mut t, 1, "02:00:00:00:00:01", "192.168.69.1", AppMode::Forward);
    assert!(a != 0);
    assert!(has_stack(&t, a));
    let b = make_smoltcp_stack(&mut t, 2, "52-54-00-12-34-56", "10.0.0.7", AppMode::ReverseEcho);
    assert!(b != 0);
    assert!(has_stack(&t, b));
    let c = make_smoltcp_stack(&mut t, 3, "aa:bb:cc:dd:ee:ff", "fe80::1", AppMode::Forward);
    assert!(c != 0);
    assert!(has_stack(&t, c));
    assert!(a != b && b != c && a != c);
}

#[test]
fn create_stack_holds_parsed_octets() {
    let mut t = StackTable::new();
    let a = make_smoltcp_stack(&mut t, 1, "02:00:0a:ff:00:01", "10.0.0.7", AppMode::Forward);
    assert_eq!(
        stack_hardware_octets(&t, a),
        Some(vec![0x02, 0x00, 0x0a, 0xff, 0x00, 0x01])
    );
    assert_eq!(stack_protocol_octets(&t, a), Some(vec![10, 0, 0, 7]));
    let b = make_smoltcp_stack(&mut t, 2, "52-54-00-12-34-56", "fe80::1", AppMode::Forward);
    assert_eq!(
        stack_hardware_octets(&t, b),
        Some(vec![0x52, 0x54, 0x00, 0x12, 0x34, 0x56])
    );
    let mut v6 = vec![0xfe, 0x80];
    v6.extend(std::iter::repeat(0).take(13));
    v6.push(1);
    assert_eq!(stack_protocol_octets(&t, b), Some(v6));
    assert_eq!(stack_hardware_octets(&t, 0), None);
}

#[test]
fn create_stack_malformed_pairs() {
    let mut t = StackTable::new();
    assert_eq!(
        make_smoltcp_stack(&mut t, 1, "02:00:00:00:00", "192.168.69.1", AppMode::Forward),
        0
    );
    assert_eq!(
        make_smoltcp_stack(&mut t, 1, "02:00:00:00:00:zz", "192.168.69.1", AppMode::Forward),
        0
    );
    assert_eq!(
        make_smoltcp_stack(&mut t, 1, "02:00:00:00:00:01", "192.168.69.", AppMode::Forward),
        0
    );
    assert_eq!(
        make_smoltcp_stack(&mut t, 1, "", "256.0.0.1", AppMode::Forward),
        0
    );
    // nothing partially built is left behind: the next instance gets handle 1
    assert!(!has_stack(&t, 1));
    let h = make_smoltcp_stack(&mut t, 1, "02:00:00:00:00:01", "192.168.69.1", AppMode::Forward);
    assert_eq!(h, 1);
}

#[test]
fn poll_null_handle_is_noop() {
    let mut t = StackTable::new();
    let h = make_smoltcp_stack(&mut t, 5, "02:00:00:00:00:01", "192.168.69.1", AppMode::Forward);
    make_add_smoltcp_tcp_socket(&mut t, h);
    // null handle: no crash, no steps, no observable change
    let steps = poll_smoltcp_stack(&mut t, 0, 10, Vec::new());
    assert!(steps.is_empty());
    assert_eq!(stack_socket_count(&t, h), Some(1));
    assert_eq!(stack_recorded_active(&t, h, 0), Some(false));
    // an out-of-range handle is equally absorbed
    let steps = poll_smoltcp_stack(&mut t, 99, 10, Vec::new());
    assert!(steps.is_empty());
}

#[test]
fn poll_event_count_mismatch_is_noop() {
    let mut t = StackTable::new();
    let h = make_smoltcp_stack(&mut t, 5, "02:00:00:00:00:01", "192.168.69.1", AppMode::Forward);
    make_add_smoltcp_tcp_socket(&mut t, h);
    // one socket registered but no events supplied: nothing is serviced
    let steps = poll_smoltcp_stack(&mut t, h, 10, Vec::new());
    assert!(steps.is_empty());
    assert_eq!(stack_socket_count(&t, h), Some(1));
}

#[test]
fn connection_transition_observable() {
    let mut t = StackTable::new();
    let h = make_smoltcp_stack(&mut t, 5, "02:00:00:00:00:01", "192.168.69.1", AppMode::Forward);
    make_add_smoltcp_tcp_socket(&mut t, h);
    assert_eq!(stack_recorded_active(&t, h, 0), Some(false));
    // first cycle: still only listening
    let ev = SocketEvent { status: idle_status(), inbound: Vec::new() };
    let steps = poll_smoltcp_stack(&mut t, h, 1, vec![ev]);
    assert_eq!(steps.len(), 1);
    assert_eq!(steps[0].transition, None);
    // a connection-establishing exchange happened: the engine now reports
    // the socket active, and the status becomes observable in this cycle
    let ev = SocketEvent { status: established_status(), inbound: Vec::new() };
    let steps = poll_smoltcp_stack(&mut t, h, 2, vec![ev]);
    assert_eq!(steps.len(), 1);
    assert_eq!(steps[0].transition, Some(true));
    assert_eq!(stack_recorded_active(&t, h, 0), Some(true));
    // and it is reported once, not on every later cycle
    let ev = SocketEvent { status: established_status(), inbound: Vec::new() };
    let steps = poll_smoltcp_stack(&mut t, h, 3, vec![ev]);
    assert_eq!(steps[0].transition, None);
}

#[test]
fn echo_reversal_round() {
    let mut t = StackTable::new();
    let h = make_smoltcp_stack(
        &mut t,
        5,
        "02:00:00:00:00:01",
        "192.168.69.1",
        AppMode::ReverseEcho,
    );
    make_add_smoltcp_tcp_socket(&mut t, h);
    let ev = SocketEvent { status: established_status(), inbound: b"hello\n".to_vec() };
    let steps = poll_smoltcp_stack(&mut t, h, 1, vec![ev]);
    assert_eq!(steps.len(), 1);
    match &steps[0].delivery {
        Some(Delivery::Echo { data }) => assert_eq!(data, &b"olleh\n".to_vec()),
        other => panic!("expected an echo delivery, got {:?}", other.is_some()),
    }
}

#[test]
fn echo_falls_back_to_sink() {
    let mut t = StackTable::new();
    let h = make_smoltcp_stack(
        &mut t,
        9,
        "02:00:00:00:00:01",
        "192.168.69.1",
        AppMode::ReverseEcho,
    );
    make_add_smoltcp_tcp_socket(&mut t, h);
    // the send buffer cannot take bytes: the drained bytes go to the sink
    let st = SocketStatus { open: true, active: true, may_recv: true, may_send: true, can_send: false };
    let ev = SocketEvent { status: st, inbound: b"hello\n".to_vec() };
    let steps = poll_smoltcp_stack(&mut t, h, 1, vec![ev]);
    match &steps[0].delivery {
        Some(Delivery::ToSink { opp_module_id, port, data }) => {
            assert_eq!(*opp_module_id, 9);
            assert_eq!(*port, ECHO_PORT);
            assert_eq!(data, &b"hello\n".to_vec());
        }
        _ => panic!("expected a sink delivery"),
    }
    // nothing drained: nothing to echo either
    let ev = SocketEvent { status: established_status(), inbound: Vec::new() };
    let steps = poll_smoltcp_stack(&mut t, h, 2, vec![ev]);
    match &steps[0].delivery {
        Some(Delivery::ToSink { data, .. }) => assert!(data.is_empty()),
        _ => panic!("expected a sink delivery"),
    }
}

#[test]
fn forward_delivers_verbatim() {
    let mut t = StackTable::new();
    let h = make_smoltcp_stack(&mut t, 7, "02:00:00:00:00:01", "192.168.69.1", AppMode::Forward);
    make_add_smoltcp_tcp_socket(&mut t, h);
    let ev = SocketEvent { status: established_status(), inbound: b"hello\n".to_vec() };
    let steps = poll_smoltcp_stack(&mut t, h, 1, vec![ev]);
    assert_eq!(steps.len(), 1);
    match &steps[0].delivery {
        Some(Delivery::ToSink { opp_module_id, port, data }) => {
            assert_eq!(*opp_module_id, 7);
            assert_eq!(*port, ECHO_PORT);
            assert_eq!(data, &b"hello\n".to_vec());
        }
        _ => panic!("expected a sink delivery"),
    }
}

#[test]
fn no_double_listen_across_cycles() {
    let mut t = StackTable::new();
    let h = make_smoltcp_stack(&mut t, 5, "02:00:00:00:00:01", "192.168.69.1", AppMode::Forward);
    let sock = make_smoltcp_tcp_socket();
    add_smoltcp_tcp_socket(&mut t, h, sock);
    // the engine reports the socket closed: one listen is asked for
    let st = SocketStatus { open: false, active: false, may_recv: false, may_send: false, can_send: false };
    let ev = SocketEvent { status: st, inbound: Vec::new() };
    let steps = poll_smoltcp_stack(&mut t, h, 1, vec![ev]);
    assert_eq!(steps[0].listen, Some(ECHO_PORT));
    // at every later timestamp the socket is open: never a second listen
    let ev = SocketEvent { status: idle_status(), inbound: Vec::new() };
    let steps = poll_smoltcp_stack(&mut t, h, 2, vec![ev]);
    assert_eq!(steps[0].listen, None);
    let ev = SocketEvent { status: established_status(), inbound: Vec::new() };
    let steps = poll_smoltcp_stack(&mut t, h, 3, vec![ev]);
    assert_eq!(steps[0].listen, None);
}

#[test]
fn half_closed_peer_closes_send_side() {
    let mut t = StackTable::new();
    let h = make_smoltcp_stack(&mut t, 5, "02:00:00:00:00:01", "192.168.69.1", AppMode::Forward);
    make_add_smoltcp_tcp_socket(&mut t, h);
    let st = SocketStatus { open: true, active: true, may_recv: false, may_send: true, can_send: true };
    let ev = SocketEvent { status: st, inbound: Vec::new() };
    let steps = poll_smoltcp_stack(&mut t, h, 1, vec![ev]);
    assert!(steps[0].close_send);
    assert!(steps[0].delivery.is_none());
}

#[test]
fn socket_registration_handles_and_port() {
    let mut t = StackTable::new();
    let h = make_smoltcp_stack(&mut t, 5, "02:00:00:00:00:01", "192.168.69.1", AppMode::Forward);
    let sock = make_smoltcp_tcp_socket();
    assert_eq!(sock.port, 0);
    assert_eq!(sock.rx_capacity, RX_BUFFER_CAPACITY);
    assert_eq!(sock.tx_capacity, TX_BUFFER_CAPACITY);
    assert!(!sock.prev_active);
    assert_eq!(add_smoltcp_tcp_socket(&mut t, h, sock), Some(0));
    assert_eq!(make_add_smoltcp_tcp_socket(&mut t, h), Some(1));
    assert_eq!(stack_socket_count(&t, h), Some(2));
    assert_eq!(stack_socket_port(&t, h, 0), Some(ECHO_PORT));
    assert_eq!(stack_socket_port(&t, h, 1), Some(ECHO_PORT));
    // registration against a dead handle is absorbed
    assert_eq!(add_smoltcp_tcp_socket(&mut t, 0, make_smoltcp_tcp_socket()), None);
    assert_eq!(make_add_smoltcp_tcp_socket(&mut t, 42), None);
}

#[test]
fn send_data_finds_matching_ports() {
    let mut t = StackTable::new();
    let h = make_smoltcp_stack(&mut t, 5, "02:00:00:00:00:01", "192.168.69.1", AppMode::Forward);
    make_add_smoltcp_tcp_socket(&mut t, h);
    make_add_smoltcp_tcp_socket(&mut t, h);
    assert_eq!(smoltcp_send_tcp_data(&t, h, ECHO_PORT), vec![0, 1]);
    // no socket on that port: a no-op
    assert!(smoltcp_send_tcp_data(&t, h, 9999).is_empty());
    // null handle: a no-op
    assert!(smoltcp_send_tcp_data(&t, 0, ECHO_PORT).is_empty());
}

#[test]
fn destroy_consumes_handle() {
    let mut t = StackTable::new();
    let a = make_smoltcp_stack(&mut t, 1, "02:00:00:00:00:01", "192.168.69.1", AppMode::Forward);
    let b = make_smoltcp_stack(&mut t, 2, "02:00:00:00:00:02", "192.168.69.2", AppMode::Forward);
    destroy_smoltcp_stack(&mut t, a);
    assert!(!has_stack(&t, a));
    assert!(has_stack(&t, b));
    // the destroyed handle is a no-op everywhere afterwards
    assert!(poll_smoltcp_stack(&mut t, a, 1, Vec::new()).is_empty());
    assert_eq!(stack_socket_count(&t, a), None);
    // destroying it again, or a null handle, changes nothing
    destroy_smoltcp_stack(&mut t, a);
    destroy_smoltcp_stack(&mut t, 0);
    assert!(has_stack(&t, b));
}
