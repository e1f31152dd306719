use udptcp::addr::{Endpoint, Ip, Ipv4, Ipv6, V6Host};
use udptcp::event::{received_event, Datagram, Event, SendStep, Tag, Transport};
use udptcp::lifecycle::{Action, IoFailure, IoKind, Lifecycle, SessionError, READ_TIMEOUT_MS};
use udptcp::tcp_client::{Connection, TcpClient};
use udptcp::tcp_server::{listed, recipients, TcpServer};
use udptcp::udp::{SocketOptions, Toggle, Udp};

fn at(port: u16) -> Endpoint {
    Endpoint::v4(Ipv4(127, 0, 0, 1), port)
}

fn failure(kind: IoKind, text: &str) -> IoFailure {
    IoFailure { kind, text: text.to_string() }
}

#[test]
fn lifecycle_stop_when_never_started_is_a_noop() {
    let mut s = Lifecycle::idle();
    assert_eq!(s.stop(), vec![]);
    assert_eq!(s, Lifecycle::idle());
    assert_eq!(s.disconnect(), vec![]);
    assert_eq!(s, Lifecycle::idle());
    assert!(!s.is_up());
}

#[test]
fn lifecycle_start_needs_a_socket_and_no_worker() {
    let mut s = Lifecycle::idle();
    assert_eq!(s.start(), Err(SessionError::NotBound));
    assert_eq!(s, Lifecycle::idle());
    s.open(at(4000));
    assert_eq!(s.start(), Ok(()));
    assert!(s.is_up());
    assert_eq!(s, Lifecycle { socket: Some(at(4000)), running: true, worker: true });
    assert_eq!(s.start(), Err(SessionError::AlreadyRunning));
    assert!(s.is_up());
}

#[test]
fn lifecycle_stop_joins_then_is_idempotent() {
    let mut s = Lifecycle::idle();
    s.open(at(4000));
    s.start().unwrap();
    assert_eq!(s.stop(), vec![Action::LowerFlag, Action::JoinWorker]);
    assert!(!s.is_up());
    assert_eq!(s, Lifecycle { socket: Some(at(4000)), running: false, worker: false });
    assert_eq!(s.stop(), vec![]);
    assert_eq!(s, Lifecycle { socket: Some(at(4000)), running: false, worker: false });
    // the socket is still there: the worker can start again
    assert_eq!(s.start(), Ok(()));
}

#[test]
fn lifecycle_disconnect_joins_before_it_releases() {
    let mut s = Lifecycle::idle();
    s.open(at(4000));
    s.start().unwrap();
    assert_eq!(
        s.disconnect(),
        vec![Action::LowerFlag, Action::JoinWorker, Action::ReleaseSocket]
    );
    assert_eq!(s, Lifecycle::idle());
    assert_eq!(s.disconnect(), vec![]);
    let mut bound_only = Lifecycle::idle();
    bound_only.open(at(1));
    assert_eq!(bound_only.disconnect(), vec![Action::ReleaseSocket]);
}

#[test]
fn io_failure_transient_kinds() {
    assert!(failure(IoKind::WouldBlock, "").is_transient());
    assert!(failure(IoKind::TimedOut, "").is_transient());
    assert!(!failure(IoKind::AddrInUse, "").is_transient());
    assert!(!failure(IoKind::AddrNotAvailable, "").is_transient());
    assert!(!failure(IoKind::InvalidInput, "").is_transient());
    assert!(!failure(IoKind::Other, "").is_transient());
}

#[test]
fn udp_default_is_down_and_stop_is_a_noop() {
    let mut udp = Udp::default();
    assert!(!udp.is_up());
    assert_eq!(udp.local_addr(), None);
    assert_eq!(udp.stop(), vec![]);
    assert_eq!(udp.disconnect(), vec![]);
    assert!(!udp.is_up());
    assert_eq!(
        udp.socket_options(),
        SocketOptions { broadcast: false, read_timeout_ms: 100 }
    );
    assert_eq!(READ_TIMEOUT_MS, 100);
}

#[test]
fn udp_connect_and_start_returns_the_port() {
    let mut udp = Udp::default();
    assert_eq!(udp.connect_and_start(Ok(at(54321))), Ok("54321".to_string()));
    assert!(udp.is_up());
    assert_eq!(udp.local_addr(), Some(at(54321)));
}

#[test]
fn udp_bind_failure_is_returned_and_changes_nothing() {
    let mut udp = Udp::default();
    let e = failure(IoKind::AddrInUse, "address in use");
    assert_eq!(udp.connect_and_start(Err(e.clone())), Err(SessionError::Bind(e.clone())));
    assert!(!udp.is_up());
    assert_eq!(udp.local_addr(), None);
    assert_eq!(udp.connect(Err(e.clone())), Err(SessionError::Bind(e)));
    assert_eq!(udp.start(), Err(SessionError::NotBound));
}

#[test]
fn udp_socket_ref_needs_a_socket() {
    let mut udp = Udp::default();
    assert_eq!(udp.socket_ref(), Err(SessionError::NotConnected));
    udp.connect(Ok(at(9))).unwrap();
    assert_eq!(udp.socket_ref(), Ok(at(9)));
    udp.disconnect();
    assert_eq!(udp.socket_ref(), Err(SessionError::NotConnected));
}

#[test]
fn udp_start_twice_is_refused() {
    let mut udp = Udp::default();
    assert_eq!(udp.connect(Ok(at(9))), Ok("9".to_string()));
    assert!(!udp.is_up());
    assert_eq!(udp.start(), Ok(()));
    assert_eq!(udp.start(), Err(SessionError::AlreadyRunning));
    assert!(udp.is_up());
    // a bind while running takes the new socket and reports the running worker
    assert_eq!(udp.connect_and_start(Ok(at(10))), Err(SessionError::AlreadyRunning));
    assert!(udp.is_up());
    assert_eq!(udp.local_addr(), Some(at(10)));
}

#[test]
fn udp_stop_then_disconnect() {
    let mut udp = Udp::default();
    udp.connect_and_start(Ok(at(7000))).unwrap();
    assert_eq!(udp.stop(), vec![Action::LowerFlag, Action::JoinWorker]);
    assert!(!udp.is_up());
    assert_eq!(udp.local_addr(), Some(at(7000)));
    assert_eq!(udp.stop(), vec![]);
    assert_eq!(udp.disconnect(), vec![Action::ReleaseSocket]);
    assert_eq!(udp.local_addr(), None);
    udp.connect_and_start(Ok(at(7001))).unwrap();
    assert_eq!(
        udp.disconnect(),
        vec![Action::LowerFlag, Action::JoinWorker, Action::ReleaseSocket]
    );
    assert!(!udp.is_up());
    assert_eq!(udp.disconnect(), vec![]);
}

#[test]
fn udp_broadcast_set_while_unbound_reaches_the_next_bind() {
    let mut udp = Udp::default();
    assert_eq!(udp.toggle_broadcast(true), Toggle::Recorded);
    assert!(udp.socket_options().broadcast);
    udp.connect_and_start(Ok(at(7000))).unwrap();
    assert!(udp.socket_options().broadcast);
    assert!(udp.broadcast_enabled(Some(true)));
}

#[test]
fn udp_broadcast_set_while_bound_applies_or_fails() {
    let mut udp = Udp::default();
    udp.connect_and_start(Ok(at(7000))).unwrap();
    assert_eq!(udp.toggle_broadcast(true), Toggle::Apply);
    assert!(!udp.socket_options().broadcast);
    let e = failure(IoKind::Other, "permission denied");
    assert_eq!(udp.broadcast_applied(true, Err(e.clone())), Err(SessionError::Os(e)));
    assert!(!udp.socket_options().broadcast);
    assert_eq!(udp.broadcast_applied(true, Ok(())), Ok(()));
    assert!(udp.socket_options().broadcast);
    assert_eq!(udp.toggle_broadcast(false), Toggle::Apply);
    assert_eq!(udp.broadcast_applied(false, Ok(())), Ok(()));
    assert!(!udp.socket_options().broadcast);
}

#[test]
fn udp_broadcast_enabled_follows_the_socket() {
    let mut udp = Udp::default();
    assert!(!udp.broadcast_enabled(Some(true)));
    udp.connect(Ok(at(1))).unwrap();
    assert!(udp.broadcast_enabled(Some(true)));
    assert!(!udp.broadcast_enabled(Some(false)));
    assert!(!udp.broadcast_enabled(None));
}

#[test]
fn udp_send_without_a_socket_is_reported() {
    let udp = Udp::default();
    assert_eq!(
        udp.send_data_to("hi", "127.0.0.1:9"),
        SendStep::Refused(Event {
            tag: Tag::Error,
            text: "UDP socket not initialized".to_string()
        })
    );
}

#[test]
fn udp_send_hands_out_the_bytes_and_reports_the_outcome() {
    let mut udp = Udp::default();
    udp.connect_and_start(Ok(at(7000))).unwrap();
    assert_eq!(
        udp.send_data_to("hé", "10.0.0.2:9"),
        SendStep::Transmit { payload: vec![0x68, 0xc3, 0xa9], to: "10.0.0.2:9".to_string() }
    );
    assert_eq!(
        Udp::sent("hi \"you\"", "10.0.0.2:9", &Ok(8)),
        Event { tag: Tag::Send, text: "[UDP SEND] \"hi \\\"you\\\"\" to 10.0.0.2:9".to_string() }
    );
    assert_eq!(
        Udp::sent("hi", "10.0.0.2:9", &Err(failure(IoKind::Other, "network unreachable"))),
        Event {
            tag: Tag::Error,
            text: "error sending \"hi\" to 10.0.0.2:9, network unreachable".to_string()
        }
    );
}

#[test]
fn udp_end_to_end_hello_is_reported_with_its_sender() {
    let mut udp = Udp::default();
    let port = udp.connect_and_start(Ok(at(40123))).unwrap();
    assert_eq!(port, "40123");
    assert_ne!(port, "0");
    let arrived = Ok(Datagram { bytes: b"hello".to_vec(), from: at(50555) });
    assert_eq!(
        received_event(Transport::Udp, &arrived),
        Some(Event {
            tag: Tag::Recv,
            text: "[UDP RECV] \"hello\" from 127.0.0.1:50555".to_string()
        })
    );
    assert!(udp.is_up());
}

#[test]
fn worker_swallows_timeouts_and_reports_other_errors() {
    assert_eq!(received_event(Transport::Udp, &Err(failure(IoKind::TimedOut, "timed out"))), None);
    assert_eq!(received_event(Transport::Udp, &Err(failure(IoKind::WouldBlock, "again"))), None);
    assert_eq!(
        received_event(Transport::Udp, &Err(failure(IoKind::Other, "connection reset"))),
        Some(Event { tag: Tag::Error, text: "receiving error: connection reset".to_string() })
    );
}

#[test]
fn received_bytes_are_decoded_leniently() {
    let arrived = Ok(Datagram { bytes: vec![0x61, 0xff, 0x0a], from: at(1) });
    assert_eq!(
        received_event(Transport::Udp, &arrived),
        Some(Event {
            tag: Tag::Recv,
            text: "[UDP RECV] \"a\u{fffd}\\n\" from 127.0.0.1:1".to_string()
        })
    );
}

#[test]
fn tcp_server_default_is_down_and_disconnect_is_a_noop() {
    let mut server = TcpServer::default();
    assert!(!server.is_up());
    assert_eq!(server.clients(), vec![]);
    assert_eq!(server.disconnect(), vec![]);
    assert_eq!(server.disconnect(), vec![]);
    assert!(!server.is_up());
}

#[test]
fn tcp_server_begin_reports_the_port() {
    let mut server = TcpServer::default();
    let (port, event) = server.begin(Ok(at(8080)));
    assert_eq!(port, Some("8080".to_string()));
    assert_eq!(
        event,
        Event { tag: Tag::Info, text: "TCP server listening on 127.0.0.1:8080".to_string() }
    );
    assert!(server.is_up());
    let (port, event) = server.begin(Ok(at(8081)));
    assert_eq!(port, None);
    assert_eq!(event, Event { tag: Tag::Error, text: "TCP server already running".to_string() });
    assert!(server.is_up());
}

#[test]
fn tcp_server_begin_failure_is_logged_not_returned() {
    let mut server = TcpServer::default();
    let (port, event) = server.begin(Err(failure(IoKind::AddrInUse, "address in use")));
    assert_eq!(port, None);
    assert_eq!(
        event,
        Event { tag: Tag::Error, text: "TCP server failed to start: address in use".to_string() }
    );
    assert!(!server.is_up());
}

#[test]
fn tcp_server_accept_events() {
    assert_eq!(
        TcpServer::accept_event(&Ok(at(50001))),
        Some(Event {
            tag: Tag::Info,
            text: "[TCP SERVER] client connected: 127.0.0.1:50001".to_string()
        })
    );
    assert_eq!(TcpServer::accept_event(&Err(failure(IoKind::WouldBlock, "again"))), None);
    assert_eq!(TcpServer::accept_event(&Err(failure(IoKind::TimedOut, "late"))), None);
    assert_eq!(
        TcpServer::accept_event(&Err(failure(IoKind::Other, "too many open files"))),
        Some(Event { tag: Tag::Error, text: "receiving error: too many open files".to_string() })
    );
}

#[test]
fn tcp_server_two_clients_then_close_one() {
    let mut server = TcpServer::default();
    server.begin(Ok(at(8080)));
    server.poll_events(&vec![at(50001)], &vec![]);
    server.poll_events(&vec![at(50002)], &vec![]);
    let clients = server.clients();
    assert_eq!(clients, vec![at(50001), at(50002)]);
    assert_ne!(clients[0], clients[1]);
    assert_eq!(server.close_client(at(50001)), vec![Action::ClosePeer(at(50001))]);
    assert_eq!(server.clients(), vec![at(50002)]);
    // closing it again, or closing a stranger, does nothing
    assert_eq!(server.close_client(at(50001)), vec![]);
    assert_eq!(server.close_client(at(9)), vec![]);
    assert_eq!(server.clients(), vec![at(50002)]);
    assert!(server.is_up());
}

#[test]
fn tcp_server_registry_keeps_each_address_once() {
    let mut server = TcpServer::default();
    server.begin(Ok(at(8080)));
    server.poll_events(&vec![at(1), at(2), at(1), at(3)], &vec![at(2), at(7)]);
    assert_eq!(server.clients(), vec![at(1), at(3)]);
    server.poll_events(&vec![at(2)], &vec![at(2)]);
    assert_eq!(server.clients(), vec![at(1), at(3)]);
    server.poll_events(&vec![], &vec![]);
    assert_eq!(server.clients(), vec![at(1), at(3)]);
}

#[test]
fn tcp_server_send_goes_to_connected_peers_only() {
    let mut server = TcpServer::default();
    server.begin(Ok(at(8080)));
    server.poll_events(&vec![at(50001)], &vec![]);
    assert_eq!(
        server.send_data("ping", at(50001)),
        SendStep::Transmit { payload: b"ping".to_vec(), to: "127.0.0.1:50001".to_string() }
    );
    assert_eq!(
        server.send_data("ping", at(50002)),
        SendStep::Refused(Event {
            tag: Tag::Error,
            text: "error sending to 127.0.0.1:50002, no such client".to_string()
        })
    );
    assert_eq!(
        TcpServer::sent("ping", at(50001), &Ok(4)),
        Event {
            tag: Tag::Send,
            text: "[TCP SERVER SEND] \"ping\" to 127.0.0.1:50001".to_string()
        }
    );
    assert_eq!(
        TcpServer::sent("ping", at(50001), &Err(failure(IoKind::Other, "broken pipe"))),
        Event {
            tag: Tag::Error,
            text: "error sending \"ping\" to 127.0.0.1:50001, broken pipe".to_string()
        }
    );
    // a failed send leaves the peer in the registry
    assert_eq!(server.clients(), vec![at(50001)]);
}

#[test]
fn tcp_server_disconnect_closes_every_peer_in_order() {
    let mut server = TcpServer::default();
    server.begin(Ok(at(8080)));
    server.poll_events(&vec![at(50001), at(50002)], &vec![]);
    assert_eq!(
        server.disconnect(),
        vec![
            Action::LowerFlag,
            Action::JoinWorker,
            Action::ClosePeer(at(50001)),
            Action::ClosePeer(at(50002)),
            Action::ReleaseSocket
        ]
    );
    assert!(!server.is_up());
    assert_eq!(server.clients(), vec![]);
    assert_eq!(server.disconnect(), vec![]);
}

#[test]
fn tcp_client_default_is_down_and_disconnect_is_a_noop() {
    let mut client = TcpClient::default();
    assert!(!client.is_up());
    assert_eq!(client.disconnect(), vec![]);
    assert_eq!(client.disconnect(), vec![]);
    assert_eq!(
        client.send_data("ping"),
        SendStep::Refused(Event { tag: Tag::Error, text: "TCP client not connected".to_string() })
    );
}

#[test]
fn tcp_client_begin_reports_the_local_address() {
    let mut client = TcpClient::default();
    let c = Connection { local: at(50001), remote: at(8080) };
    let (local, event) = client.begin(Ok(c));
    assert_eq!(local, Some(at(50001)));
    assert_eq!(
        event,
        Event {
            tag: Tag::Info,
            text: "TCP client connected to 127.0.0.1:8080 from 127.0.0.1:50001".to_string()
        }
    );
    assert!(client.is_up());
    let (local, event) = client.begin(Ok(c));
    assert_eq!(local, None);
    assert_eq!(event, Event { tag: Tag::Error, text: "TCP client already running".to_string() });
    assert_eq!(
        client.disconnect(),
        vec![Action::LowerFlag, Action::JoinWorker, Action::ReleaseSocket]
    );
    assert!(!client.is_up());
}

#[test]
fn tcp_client_begin_failure_is_logged_not_returned() {
    let mut client = TcpClient::default();
    let (local, event) = client.begin(Err(failure(IoKind::Other, "connection refused")));
    assert_eq!(local, None);
    assert_eq!(
        event,
        Event {
            tag: Tag::Error,
            text: "TCP client failed to connect: connection refused".to_string()
        }
    );
    assert!(!client.is_up());
}

#[test]
fn tcp_end_to_end_ping_both_ways() {
    let mut server = TcpServer::default();
    let (port, _) = server.begin(Ok(at(8080)));
    assert_eq!(port, Some("8080".to_string()));
    let mut client = TcpClient::default();
    let (local, _) = client.begin(Ok(Connection { local: at(50001), remote: at(8080) }));
    let local = local.unwrap();
    server.poll_events(&vec![local], &vec![]);
    assert_eq!(server.clients(), vec![at(50001)]);
    // client to server
    assert_eq!(
        client.send_data("ping"),
        SendStep::Transmit { payload: b"ping".to_vec(), to: "127.0.0.1:8080".to_string() }
    );
    assert_eq!(
        TcpClient::sent("ping", at(8080), &Ok(4)),
        Event { tag: Tag::Send, text: "[TCP CLIENT SEND] \"ping\" to 127.0.0.1:8080".to_string() }
    );
    let at_server = Ok(Datagram { bytes: b"ping".to_vec(), from: local });
    assert_eq!(
        received_event(Transport::TcpServer, &at_server),
        Some(Event {
            tag: Tag::Recv,
            text: "[TCP SERVER RECV] \"ping\" from 127.0.0.1:50001".to_string()
        })
    );
    // server to client
    assert_eq!(
        server.send_data("pong", local),
        SendStep::Transmit { payload: b"pong".to_vec(), to: "127.0.0.1:50001".to_string() }
    );
    assert_eq!(
        TcpClient::received(at(8080), Ok(b"pong".to_vec())),
        Some(Event {
            tag: Tag::Recv,
            text: "[TCP CLIENT RECV] \"pong\" from 127.0.0.1:8080".to_string()
        })
    );
    assert_eq!(TcpClient::received(at(8080), Err(failure(IoKind::TimedOut, "late"))), None);
    assert_eq!(
        TcpClient::received(at(8080), Err(failure(IoKind::Other, "reset"))),
        Some(Event { tag: Tag::Error, text: "receiving error: reset".to_string() })
    );
}

#[test]
fn recipients_are_the_selected_among_the_connected() {
    let peers = vec![at(1), at(2), at(3), at(4)];
    assert_eq!(recipients(&peers, &vec![at(4), at(2), at(9)]), vec![at(2), at(4)]);
    assert_eq!(recipients(&peers, &vec![]), vec![]);
    assert_eq!(recipients(&vec![], &vec![at(1)]), vec![]);
    assert_eq!(recipients(&peers, &peers), peers);
    assert!(listed(&peers, at(3)));
    assert!(!listed(&peers, at(5)));
    assert!(!listed(&vec![], at(5)));
}

#[test]
fn ipv6_peers_are_peers_like_any_other() {
    let host = V6Host { addr: Ipv6(0, 0, 0, 0, 0, 0, 0, 1), flowinfo: 0, scope_id: 0 };
    let six = Endpoint { ip: Ip::V6(host), port: 50001 };
    let mut server = TcpServer::default();
    server.begin(Ok(Endpoint { ip: Ip::V6(host), port: 8080 }));
    server.poll_events(&vec![six, at(50001)], &vec![]);
    assert_eq!(server.clients(), vec![six, at(50001)]);
    assert_eq!(
        TcpServer::accept_event(&Ok(six)),
        Some(Event {
            tag: Tag::Info,
            text: "[TCP SERVER] client connected: [0:0:0:0:0:0:0:1]:50001".to_string()
        })
    );
    assert_eq!(server.close_client(six), vec![Action::ClosePeer(six)]);
    assert_eq!(server.clients(), vec![at(50001)]);
    let mut udp = Udp::default();
    assert_eq!(udp.connect_and_start(Ok(six)), Ok("50001".to_string()));
    assert_eq!(udp.local_addr(), Some(six));
}

#[test]
fn a_session_that_is_up_has_its_socket() {
    let mut udp = Udp::default();
    udp.connect_and_start(Ok(at(7))).unwrap();
    assert!(udp.is_up());
    assert!(udp.local_addr().is_some());
    assert!(udp.socket_ref().is_ok());
    udp.disconnect();
    assert!(!udp.is_up());
    assert!(udp.local_addr().is_none());
    let mut client = TcpClient::default();
    client.begin(Ok(Connection { local: at(1), remote: at(2) }));
    assert!(client.is_up());
    assert!(matches!(client.send_data("x"), SendStep::Transmit { .. }));
    client.disconnect();
    assert!(!client.is_up());
    assert!(matches!(client.send_data("x"), SendStep::Refused(_)));
}
