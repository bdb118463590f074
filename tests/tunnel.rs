use tunnel_client::addr::{claim_host_of, resolve_destination, HostAddr, Protocol, RemoteAddr, RoutingClaim};
use tunnel_client::forward::{AcceptOutcome, ForwardAction, ForwardLoop};
use tunnel_client::relay::{LocalAction, LocalEvent, LocalToRemote, RemoteAction, RemoteEvent, RemoteToLocal};
use tunnel_client::request_id::RequestIds;
use tunnel_client::reverse::{ReverseAction, ReverseEvent, ReverseLoop, ReversePhase, BACKOFF_MILLIS};
use tunnel_client::transport::{transport_for, TransportFamily, TransportScheme};

fn addr(host: &str, port: u16) -> RemoteAddr {
    RemoteAddr { protocol: Protocol::Tcp, host: HostAddr::Domain(host.to_string()), port }
}

fn domain_of(h: &HostAddr) -> Option<String> {
    match h {
        HostAddr::Domain(d) => Some(d.clone()),
        _ => None,
    }
}

#[test]
fn schemes_select_their_transport() {
    assert_eq!(transport_for(TransportScheme::Ws), TransportFamily::Websocket);
    assert_eq!(transport_for(TransportScheme::Wss), TransportFamily::Websocket);
    assert_eq!(transport_for(TransportScheme::Http), TransportFamily::Http2);
    assert_eq!(transport_for(TransportScheme::Https), TransportFamily::Http2);
}

#[test]
fn claim_hosts_are_parsed() {
    assert_eq!(domain_of(&claim_host_of("example.com")), Some("example.com".to_string()));
    assert_eq!(domain_of(&claim_host_of("EXAMPLE.com")), Some("example.com".to_string()));
    assert!(matches!(claim_host_of("127.0.0.1"), HostAddr::Ipv4(0x7f00_0001)));
    assert!(matches!(claim_host_of("[::1]"), HostAddr::Ipv6(1)));
}

#[test]
fn unparsable_claim_host_degrades_to_empty_domain() {
    assert_eq!(domain_of(&claim_host_of("")), Some(String::new()));
    assert_eq!(domain_of(&claim_host_of("exa mple.com")), Some(String::new()));
    assert_eq!(domain_of(&claim_host_of("[::1")), Some(String::new()));
}

#[test]
fn verified_claim_overwrites_destination() {
    let working = addr("old.example.org", 22);
    let claim = RoutingClaim { protocol: Protocol::Tcp, host: "example.com".to_string(), port: 8080 };
    let r = resolve_destination(&working, &Some(claim));
    assert_eq!(r.protocol, Protocol::Tcp);
    assert_eq!(domain_of(&r.host), Some("example.com".to_string()));
    assert_eq!(r.port, 8080);
}

#[test]
fn missing_claim_keeps_previous_destination() {
    let working = RemoteAddr { protocol: Protocol::Udp, host: HostAddr::Ipv4(0x0a00_0001), port: 53 };
    let r = resolve_destination(&working, &None);
    assert_eq!(r.protocol, Protocol::Udp);
    assert!(matches!(r.host, HostAddr::Ipv4(0x0a00_0001)));
    assert_eq!(r.port, 53);
}

#[test]
fn request_ids_never_repeat() {
    let mut ids = RequestIds::new();
    assert_eq!(ids.issue(5), Some(5));
    assert_eq!(ids.issue(3), Some(6));
    assert_eq!(ids.issue(6), Some(7));
    assert_eq!(ids.issue(100), Some(100));
    let a = ids.fresh().unwrap();
    let b = ids.fresh().unwrap();
    assert!(a > 100);
    assert!(b > a);
    assert_eq!((a >> 76) & 0xf, 7);
}

#[test]
fn request_ids_run_out_at_the_top() {
    let mut ids = RequestIds::new();
    assert_eq!(ids.issue(u128::MAX), Some(u128::MAX));
    assert_eq!(ids.issue(0), None);
    assert_eq!(ids.issue(u128::MAX), None);
    assert_eq!(ids.fresh(), None);
}

#[test]
fn fresh_identity_after_a_large_one() {
    let mut ids = RequestIds::new();
    assert_eq!(ids.issue(u128::MAX - 1), Some(u128::MAX - 1));
    assert_eq!(ids.fresh(), Some(u128::MAX));
    assert_eq!(ids.fresh(), None);
}

#[test]
fn accept_failures_do_not_halt_forward_loop() {
    let mut lp = ForwardLoop::new();
    assert!(matches!(lp.on_accept_with(AcceptOutcome::Failed, 0), ForwardAction::Skip));
    let a = lp.on_accept_with(AcceptOutcome::Accepted(addr("a.example", 80)), 10);
    assert!(matches!(a, ForwardAction::Dispatch { id: 10, ref target } if target.port == 80));
    assert!(matches!(lp.on_accept_with(AcceptOutcome::Failed, 0), ForwardAction::Skip));
    assert!(matches!(lp.on_accept_with(AcceptOutcome::Failed, 0), ForwardAction::Skip));
    let b = lp.on_accept_with(AcceptOutcome::Accepted(addr("b.example", 443)), 20);
    assert!(matches!(b, ForwardAction::Dispatch { id: 20, ref target } if target.port == 443));
    assert!(!lp.is_finished());
    assert!(matches!(lp.on_accept_with(AcceptOutcome::Exhausted, 0), ForwardAction::Finish));
    assert!(lp.is_finished());
    assert!(matches!(lp.on_accept_with(AcceptOutcome::Accepted(addr("c.example", 1)), 30), ForwardAction::Finish));
}

#[test]
fn forward_connections_get_distinct_identities() {
    let mut lp = ForwardLoop::new();
    let mut seen: Vec<u128> = Vec::new();
    for port in 1..=8u16 {
        match lp.on_accept(AcceptOutcome::Accepted(addr("x.example", port))) {
            ForwardAction::Dispatch { id, target } => {
                assert_eq!(target.port, port);
                seen.push(id);
            }
            other => panic!("unexpected {:?}", other),
        }
    }
    for i in 0..seen.len() {
        for j in i + 1..seen.len() {
            assert_ne!(seen[i], seen[j]);
        }
    }
    let mut lp2 = ForwardLoop::new();
    let x = lp2.on_accept_with(AcceptOutcome::Accepted(addr("x.example", 1)), 50);
    let y = lp2.on_accept_with(AcceptOutcome::Accepted(addr("x.example", 2)), 50);
    assert!(matches!(x, ForwardAction::Dispatch { id: 50, .. }));
    assert!(matches!(y, ForwardAction::Dispatch { id: 51, .. }));
}

#[test]
fn failing_server_backs_off_each_time() {
    let mut lp = ReverseLoop::new(addr("tunnel.example", 443));
    let mut sleeps = 0;
    for i in 0..5u128 {
        let a = lp.begin_with(1000 + i);
        assert!(matches!(a, ReverseAction::ConnectServer { id, ref target } if id == 1000 + i && target.port == 443));
        match lp.on_event(ReverseEvent::ServerFailed) {
            ReverseAction::Sleep { millis } => {
                assert_eq!(millis, BACKOFF_MILLIS);
                assert!(millis >= 1000);
                sleeps += 1;
            }
            other => panic!("unexpected {:?}", other),
        }
        assert_eq!(lp.phase(), ReversePhase::Ready);
    }
    assert_eq!(sleeps, 5);
}

#[test]
fn reverse_session_follows_claim_then_relays() {
    let mut lp = ReverseLoop::new(addr("tunnel.example", 443));
    assert!(matches!(lp.begin(), ReverseAction::ConnectServer { .. }));
    let claim = RoutingClaim { protocol: Protocol::Tcp, host: "example.com".to_string(), port: 8080 };
    match lp.on_event(ReverseEvent::ServerConnected(Some(claim))) {
        ReverseAction::ConnectLocal { target } => {
            assert_eq!(target.protocol, Protocol::Tcp);
            assert_eq!(domain_of(&target.host), Some("example.com".to_string()));
            assert_eq!(target.port, 8080);
        }
        other => panic!("unexpected {:?}", other),
    }
    assert!(matches!(lp.on_event(ReverseEvent::LocalConnected), ReverseAction::Relay));
    assert_eq!(lp.phase(), ReversePhase::Relaying);
    assert!(matches!(lp.begin(), ReverseAction::Ignore));
    assert!(matches!(lp.on_event(ReverseEvent::ServerFailed), ReverseAction::Ignore));
    assert_eq!(lp.phase(), ReversePhase::Relaying);
    assert!(matches!(lp.on_event(ReverseEvent::RelayEnded), ReverseAction::Retry));
    assert_eq!(lp.phase(), ReversePhase::Ready);
    assert!(matches!(lp.begin(), ReverseAction::ConnectServer { ref target, .. } if target.port == 443));
    match lp.on_event(ReverseEvent::ServerConnected(None)) {
        ReverseAction::ConnectLocal { target } => {
            assert_eq!(domain_of(&target.host), Some("example.com".to_string()));
            assert_eq!(target.port, 8080);
        }
        other => panic!("unexpected {:?}", other),
    }
    assert!(matches!(lp.on_event(ReverseEvent::LocalFailed), ReverseAction::Retry));
    assert_eq!(lp.phase(), ReversePhase::Ready);
}

#[test]
fn reverse_loop_ignores_out_of_phase_events() {
    let mut lp = ReverseLoop::new(addr("tunnel.example", 443));
    assert!(matches!(lp.on_event(ReverseEvent::ServerFailed), ReverseAction::Ignore));
    assert!(matches!(lp.on_event(ReverseEvent::LocalConnected), ReverseAction::Ignore));
    assert!(matches!(lp.begin_with(7), ReverseAction::ConnectServer { id: 7, .. }));
    assert!(matches!(lp.begin_with(8), ReverseAction::Ignore));
    assert!(matches!(lp.on_event(ReverseEvent::LocalFailed), ReverseAction::Ignore));
    assert_eq!(lp.phase(), ReversePhase::Connecting);
}

#[test]
fn reverse_loop_stops_when_identities_run_out() {
    let mut lp = ReverseLoop::new(addr("tunnel.example", 443));
    assert!(matches!(lp.begin_with(u128::MAX), ReverseAction::ConnectServer { id: u128::MAX, .. }));
    assert!(matches!(lp.on_event(ReverseEvent::ServerFailed), ReverseAction::Sleep { millis: 1000 }));
    assert!(matches!(lp.begin_with(3), ReverseAction::Stop));
    assert_eq!(lp.phase(), ReversePhase::Stopped);
}

#[test]
fn hello_then_close_signals_once() {
    let mut d = LocalToRemote::new(true);
    match d.on_event(LocalEvent::Data(b"hello".to_vec())) {
        LocalAction::Send(b) => assert_eq!(b, b"hello".to_vec()),
        other => panic!("unexpected {:?}", other),
    }
    assert!(matches!(d.on_event(LocalEvent::Closed), LocalAction::SignalClose));
    assert!(d.is_stopped());
    assert!(matches!(d.on_event(LocalEvent::Closed), LocalAction::Stop));
    assert!(matches!(d.on_event(LocalEvent::Failed), LocalAction::Stop));
    assert!(matches!(d.on_event(LocalEvent::Data(b"late".to_vec())), LocalAction::Stop));
}

#[test]
fn idle_interval_sends_one_keepalive() {
    let mut d = LocalToRemote::new(true);
    assert!(matches!(d.on_event(LocalEvent::Idle), LocalAction::Ping));
    match d.on_event(LocalEvent::Data(vec![1, 2, 3])) {
        LocalAction::Send(b) => assert_eq!(b, vec![1, 2, 3]),
        other => panic!("unexpected {:?}", other),
    }
    let mut quiet = LocalToRemote::new(false);
    assert!(matches!(quiet.on_event(LocalEvent::Idle), LocalAction::Wait));
}

#[test]
fn remote_direction_outlives_close_signal_until_eof() {
    let mut r = RemoteToLocal::new();
    match r.on_event(RemoteEvent::Data(b"pong".to_vec())) {
        RemoteAction::Write(b) => assert_eq!(b, b"pong".to_vec()),
        other => panic!("unexpected {:?}", other),
    }
    assert!(matches!(r.on_event(RemoteEvent::PeerClosed), RemoteAction::Wait));
    assert!(!r.is_stopped());
    assert!(r.peer_closed());
    match r.on_event(RemoteEvent::Data(b"response".to_vec())) {
        RemoteAction::Write(b) => assert_eq!(b, b"response".to_vec()),
        other => panic!("unexpected {:?}", other),
    }
    assert!(matches!(r.on_event(RemoteEvent::Closed), RemoteAction::Stop));
    assert!(r.is_stopped());
    assert!(matches!(r.on_event(RemoteEvent::Data(vec![9])), RemoteAction::Stop));

    let mut r2 = RemoteToLocal::new();
    assert!(matches!(r2.on_event(RemoteEvent::Closed), RemoteAction::Stop));
    let mut r3 = RemoteToLocal::new();
    assert!(matches!(r3.on_event(RemoteEvent::Failed), RemoteAction::Stop));
    assert!(r3.is_stopped());
}

#[test]
fn local_failure_also_signals_close() {
    let mut d = LocalToRemote::new(false);
    assert!(matches!(d.on_event(LocalEvent::Failed), LocalAction::SignalClose));
    assert!(matches!(d.on_event(LocalEvent::Idle), LocalAction::Stop));
}
