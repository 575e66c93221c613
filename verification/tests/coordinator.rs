use rendezvous::coordinator::{
    CallCoordinator, CallCoordinatorState, ProbeEvent, SessionAbort, TickAction, RELAY_PAYLOAD_CAP,
    RETRY_BUDGET, SIGNAL_PARTNER_FOUND,
};
use rendezvous::registry::{RegisterOutcome, RoomRegistry, SIGNAL_WAITING_IN_ROOM};
use rendezvous::settings::{preferred_settings_from_byte, CallSettings};
use rendezvous::token::room_token_for;
use rendezvous::wire::{addr_from_bytes, port_from_bytes, Ipv4Endpoint};

fn endpoint(ip: [u8; 4], port: u16) -> Ipv4Endpoint {
    Ipv4Endpoint { ip0: ip[0], ip1: ip[1], ip2: ip[2], ip3: ip[3], port }
}

#[test]
fn merge_truth_table() {
    for (a, b, relayed) in [
        (false, false, false),
        (true, false, true),
        (false, true, true),
        (true, true, true),
    ] {
        let merged = CallSettings { relay: a }.merge(CallSettings { relay: b });
        assert_eq!(merged.relay, relayed);
    }
}

#[test]
fn begin_handshake_announces_own_ports() {
    let mut coordinator = CallCoordinator::new(CallSettings { relay: false });
    let msgs = coordinator.begin_handshake(4000, 48012);
    assert_eq!(msgs.to_client1, vec![SIGNAL_PARTNER_FOUND, 15, 160]);
    assert_eq!(msgs.to_client2, vec![SIGNAL_PARTNER_FOUND, 187, 140]);
    match coordinator.state {
        CallCoordinatorState::Handshake(h) => {
            assert_eq!(h.retries, RETRY_BUDGET);
            assert!(h.client1_udp_addr.is_none());
            assert!(h.client2_udp_addr.is_none());
        }
        _ => panic!("discovery must start after the handshake opens"),
    }
}

/// Direct mode from pairing to address exchange: both clients join the same
/// room, discovery latches both probes, and each client decodes exactly the
/// other's endpoint; the coordinator is finished and out of the data path.
#[test]
fn direct_mode_exchanges_crossed_addresses() {
    let mut registry: RoomRegistry<u8> = RoomRegistry::new();
    let room = b"room".to_vec();
    let first = registry.register_or_pair(room_token_for(&room), 1);
    assert!(matches!(first, RegisterOutcome::Waiting));
    let second = registry.register_or_pair(room_token_for(&room), 2);
    let waiting_peer = match second {
        RegisterOutcome::Paired { registering: _, waiting } => waiting,
        RegisterOutcome::Waiting => panic!("both clients joined the same room"),
    };
    assert_eq!(waiting_peer, 1);

    let settings = preferred_settings_from_byte(Some(0)).merge(preferred_settings_from_byte(None));
    let mut coordinator = CallCoordinator::new(settings);
    coordinator.begin_handshake(40001, 40002);

    let addr1 = endpoint([203, 0, 113, 5], 5061);
    let addr2 = endpoint([198, 51, 100, 9], 6007);
    let action =
        coordinator.handshake_tick(ProbeEvent::Ipv4(addr1), ProbeEvent::Ipv4(addr2));
    let msgs = match action {
        TickAction::Deliver(msgs) => msgs,
        _ => panic!("direct mode must deliver the exchange once both probes arrived"),
    };
    assert_eq!(addr_from_bytes(&msgs.to_client1), addr2);
    assert_eq!(addr_from_bytes(&msgs.to_client2), addr1);
    assert!(matches!(coordinator.state, CallCoordinatorState::Finished));
}

/// Discovery may need several ticks when one probe is late; the late probe is
/// still latched and the exchange is the same.
#[test]
fn direct_mode_with_late_second_probe() {
    let mut coordinator = CallCoordinator::new(CallSettings { relay: false });
    coordinator.begin_handshake(40001, 40002);
    let addr1 = endpoint([192, 0, 2, 1], 1111);
    let addr2 = endpoint([192, 0, 2, 2], 2222);
    let action = coordinator.handshake_tick(ProbeEvent::Ipv4(addr1), ProbeEvent::Silent);
    assert!(matches!(action, TickAction::KeepDiscovering));
    let action = coordinator.handshake_tick(ProbeEvent::Silent, ProbeEvent::Ipv4(addr2));
    match action {
        TickAction::Deliver(msgs) => {
            assert_eq!(addr_from_bytes(&msgs.to_client1), addr2);
            assert_eq!(addr_from_bytes(&msgs.to_client2), addr1);
        }
        _ => panic!("both endpoints were known"),
    }
}

/// Relay mode end-to-end at the decision level: the same exchange resolves to
/// relaying, each direction's datagram is forwarded verbatim to the opposite
/// peer, and payloads up to the cap keep byte-for-byte fidelity.
#[test]
fn relay_mode_forwards_between_peers() {
    let settings = CallSettings { relay: false }.merge(CallSettings { relay: true });
    let mut coordinator = CallCoordinator::new(settings);
    coordinator.begin_handshake(40001, 40002);
    let addr1 = endpoint([203, 0, 113, 5], 5061);
    let addr2 = endpoint([198, 51, 100, 9], 6007);
    let action =
        coordinator.handshake_tick(ProbeEvent::Ipv4(addr1), ProbeEvent::Ipv4(addr2));
    assert!(matches!(action, TickAction::StartRelay));
    assert!(matches!(coordinator.state, CallCoordinatorState::Relay(_, _)));

    let from_first = coordinator.relay_forward(true, vec![42]);
    assert_eq!(from_first.dest, addr2);
    assert_eq!(from_first.payload, vec![42]);

    let from_second = coordinator.relay_forward(false, vec![24]);
    assert_eq!(from_second.dest, addr1);
    assert_eq!(from_second.payload, vec![24]);

    let full: Vec<u8> = (0..RELAY_PAYLOAD_CAP).map(|i| (i % 251) as u8).collect();
    let forwarded = coordinator.relay_forward(true, full.clone());
    assert_eq!(forwarded.payload, full);
}

#[test]
fn relay_truncates_oversized_datagrams() {
    let mut coordinator = CallCoordinator::new(CallSettings { relay: true });
    coordinator.begin_handshake(1, 2);
    coordinator.handshake_tick(
        ProbeEvent::Ipv4(endpoint([10, 0, 0, 1], 1)),
        ProbeEvent::Ipv4(endpoint([10, 0, 0, 2], 2)),
    );
    let oversized = vec![9u8; RELAY_PAYLOAD_CAP + 300];
    let plan = coordinator.relay_forward(true, oversized);
    assert_eq!(plan.payload, vec![9u8; RELAY_PAYLOAD_CAP]);
}

/// A session whose peers never probe aborts after exactly the retry budget of
/// ticks, never hanging in discovery.
#[test]
fn silent_discovery_times_out_within_budget() {
    let mut coordinator = CallCoordinator::new(CallSettings { relay: false });
    coordinator.begin_handshake(40001, 40002);
    let mut ticks = 0u32;
    loop {
        let action = coordinator.handshake_tick(ProbeEvent::Silent, ProbeEvent::Silent);
        ticks += 1;
        match action {
            TickAction::KeepDiscovering => {
                assert!(ticks < RETRY_BUDGET as u32);
            }
            TickAction::Abort(reason) => {
                assert_eq!(reason, SessionAbort::DiscoveryTimeout);
                break;
            }
            _ => panic!("nothing was discovered"),
        }
    }
    assert_eq!(ticks, RETRY_BUDGET as u32);
    assert!(matches!(
        coordinator.state,
        CallCoordinatorState::Aborted(SessionAbort::DiscoveryTimeout)
    ));
}

/// Repeated probes from an already-latched side neither change the recorded
/// endpoint nor stretch the retry budget.
#[test]
fn latched_endpoint_ignores_later_probes() {
    let mut coordinator = CallCoordinator::new(CallSettings { relay: false });
    coordinator.begin_handshake(40001, 40002);
    let addr1 = endpoint([192, 0, 2, 1], 1111);
    let imposter = endpoint([192, 0, 2, 77], 7777);
    coordinator.handshake_tick(ProbeEvent::Ipv4(addr1), ProbeEvent::Silent);
    let retries_after_first = match coordinator.state {
        CallCoordinatorState::Handshake(h) => {
            assert_eq!(h.client1_udp_addr, Some(addr1));
            h.retries
        }
        _ => panic!("still discovering"),
    };
    coordinator.handshake_tick(ProbeEvent::Ipv4(imposter), ProbeEvent::Silent);
    match coordinator.state {
        CallCoordinatorState::Handshake(h) => {
            assert_eq!(h.client1_udp_addr, Some(addr1));
            assert_eq!(h.retries, retries_after_first - 1);
        }
        _ => panic!("still discovering"),
    }
    let addr2 = endpoint([192, 0, 2, 2], 2222);
    match coordinator.handshake_tick(ProbeEvent::Ipv4(imposter), ProbeEvent::Ipv4(addr2)) {
        TickAction::Deliver(msgs) => {
            assert_eq!(addr_from_bytes(&msgs.to_client1), addr2);
            assert_eq!(addr_from_bytes(&msgs.to_client2), addr1);
        }
        _ => panic!("both endpoints were known"),
    }
}

/// A non-IPv4 probe source is fatal at once, not a retry case.
#[test]
fn non_ipv4_probe_aborts_session() {
    let mut coordinator = CallCoordinator::new(CallSettings { relay: false });
    coordinator.begin_handshake(40001, 40002);
    let action = coordinator.handshake_tick(ProbeEvent::NonIpv4, ProbeEvent::Silent);
    assert!(matches!(
        action,
        TickAction::Abort(SessionAbort::UnsupportedPeerAddress)
    ));
    assert!(matches!(
        coordinator.state,
        CallCoordinatorState::Aborted(SessionAbort::UnsupportedPeerAddress)
    ));
}

#[test]
fn waiting_signal_precedes_everything() {
    let notice = rendezvous::registry::waiting_notice();
    assert_eq!(notice, vec![SIGNAL_WAITING_IN_ROOM]);
}

#[test]
fn partner_found_port_round_trips() {
    let msg = rendezvous::coordinator::partner_found_notice(4000);
    assert_eq!(msg[0], SIGNAL_PARTNER_FOUND);
    assert_eq!(port_from_bytes(msg[1], msg[2]), 4000);
}
