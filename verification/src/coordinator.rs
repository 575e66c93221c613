use vstd::prelude::*;
use vstd::pervasive::arbitrary;
use vstd::pervasive::unreached;
use crate::settings::CallSettings;
use crate::wire::Ipv4Endpoint;
use crate::wire::endpoint_wire;
use crate::wire::port_hi;
use crate::wire::port_lo;

verus! {

/// Signal announcing a partner, followed on the wire by the 2-byte big-endian
/// port of the registering client's own UDP socket.
pub const SIGNAL_PARTNER_FOUND: u8 = 2;

/// Discovery attempts granted to a session before it gives up.
pub const RETRY_BUDGET: u8 = 10;

/// Largest relayed payload; longer datagrams are truncated to this many
/// bytes, a documented cap rather than an error.
pub const RELAY_PAYLOAD_CAP: usize = 1024;

/// Why a session ended without completing its handshake.
#[derive(Clone, Copy, Debug, PartialEq, Eq, Structural)]
pub enum SessionAbort {
    /// The retry budget ran out before both peers' endpoints were known.
    DiscoveryTimeout,
    /// A discovery probe arrived from a non-IPv4 source, which the protocol
    /// does not support.
    UnsupportedPeerAddress,
}

/// What one receive attempt on a discovery socket observed.
#[derive(Clone, Copy, Debug, PartialEq, Eq, Structural)]
pub enum ProbeEvent {
    /// Nothing arrived within the attempt's timeout.
    Silent,
    /// A probe arrived from this IPv4 source.
    Ipv4(Ipv4Endpoint),
    /// A probe arrived from a source that is not IPv4.
    NonIpv4,
}

/// The discovery phase's knowledge: each peer's endpoint once latched, and
/// the remaining retry budget.
#[derive(Clone, Copy, Debug, PartialEq, Eq, Structural)]
pub struct Handshake {
    pub client1_udp_addr: Option<Ipv4Endpoint>,
    pub client2_udp_addr: Option<Ipv4Endpoint>,
    pub retries: u8,
}

/// The per-pair state machine's states. The control channels and UDP sockets
/// themselves are owned by the caller; the states carry what is decided about
/// them.
#[derive(Clone, Copy, Debug, PartialEq, Eq, Structural)]
pub enum CallCoordinatorState {
    /// Both control channels are paired; no UDP work has happened yet.
    HandshakeBegin,
    /// Endpoint discovery is under way.
    Handshake(Handshake),
    /// Both endpoints are known and the session relays: datagrams from the
    /// first peer's socket go to the second's endpoint and vice versa.
    Relay(Ipv4Endpoint, Ipv4Endpoint),
    /// Direct mode completed: addresses were exchanged and the coordinator is
    /// out of the data path.
    Finished,
    /// The session ended without completing discovery.
    Aborted(SessionAbort),
}

/// A per-pair call coordinator: the session-wide settings and the state the
/// handshake has reached.
#[derive(Clone, Copy, Debug, PartialEq, Eq, Structural)]
pub struct CallCoordinator {
    pub settings: CallSettings,
    pub state: CallCoordinatorState,
}

/// A pair of control-channel messages, one for each peer's own channel.
pub struct PeerMessages {
    pub to_client1: Vec<u8>,
    pub to_client2: Vec<u8>,
}

/// What the caller must do after a discovery tick.
pub enum TickAction {
    /// Stay in discovery: pause briefly, then probe again.
    KeepDiscovering,
    /// Direct mode resolved: write each message to its peer's control
    /// channel, then drop both sockets; the session is finished.
    Deliver(PeerMessages),
    /// Relay mode resolved: keep both sockets and start forwarding.
    StartRelay,
    /// The session is over; nothing further is sent to either peer.
    Abort(SessionAbort),
}

/// A forwarding decision in relay mode: send `payload` to `dest`.
pub struct ForwardPlan {
    pub dest: Ipv4Endpoint,
    pub payload: Vec<u8>,
}

/// The PARTNER_FOUND message for a client whose UDP socket got `port`.
pub open spec fn partner_found_message(port: u16) -> Seq<u8> {
    seq![SIGNAL_PARTNER_FOUND, port_hi(port), port_lo(port)]
}

/// An endpoint after one probe: latched endpoints are write-once, and only a
/// socket without one learns from its probe.
pub open spec fn latched(cur: Option<Ipv4Endpoint>, probe: ProbeEvent) -> Option<Ipv4Endpoint> {
    if cur is Some {
        cur
    } else {
        match probe {
            ProbeEvent::Ipv4(addr) => Some(addr),
            _ => None,
        }
    }
}

/// A probe that is fatal: a socket still listening got a non-IPv4 source.
pub open spec fn probe_rejected(cur: Option<Ipv4Endpoint>, probe: ProbeEvent) -> bool {
    cur is None && probe is NonIpv4
}

impl CallCoordinator {
    /// States the handshake can actually be in: the budget is spent one tick
    /// at a time and never replenished.
    pub open spec fn wf(self) -> bool {
        self.state matches CallCoordinatorState::Handshake(h) ==> 1 <= h.retries
            <= RETRY_BUDGET
    }

    /// The discovery knowledge, in the discovery phase.
    pub open spec fn handshake_state(self) -> Handshake
        recommends
            self.state is Handshake,
    {
        match self.state {
            CallCoordinatorState::Handshake(h) => h,
            _ => arbitrary(),
        }
    }

    /// A fresh coordinator for a newly paired couple of control channels.
    pub fn new(settings: CallSettings) -> (coordinator: Self)
        ensures
            coordinator.settings == settings,
            coordinator.state is HandshakeBegin,
            coordinator.wf(),
    {
        CallCoordinator { settings, state: CallCoordinatorState::HandshakeBegin }
    }
}

/// Where one discovery tick takes the state: the budget is charged first;
/// then a non-IPv4 probe is fatal; then probes latch endpoints write-once;
/// and once both endpoints are known the merged relay flag picks the mode.
pub open spec fn handshake_next(
    c: CallCoordinator,
    probe1: ProbeEvent,
    probe2: ProbeEvent,
) -> CallCoordinatorState
    recommends
        c.state is Handshake,
{
    let h = c.handshake_state();
    if h.retries <= 1 {
        CallCoordinatorState::Aborted(SessionAbort::DiscoveryTimeout)
    } else if probe_rejected(h.client1_udp_addr, probe1) || probe_rejected(
        h.client2_udp_addr,
        probe2,
    ) {
        CallCoordinatorState::Aborted(SessionAbort::UnsupportedPeerAddress)
    } else {
        let addr1 = latched(h.client1_udp_addr, probe1);
        let addr2 = latched(h.client2_udp_addr, probe2);
        if addr1 is Some && addr2 is Some {
            if c.settings.relay {
                CallCoordinatorState::Relay(addr1->0, addr2->0)
            } else {
                CallCoordinatorState::Finished
            }
        } else {
            CallCoordinatorState::Handshake(
                Handshake {
                    client1_udp_addr: addr1,
                    client2_udp_addr: addr2,
                    retries: (h.retries - 1) as u8,
                },
            )
        }
    }
}

/// The direct-mode exchange is crossed: each peer is told the other's
/// endpoint, in 6-byte wire form.
pub open spec fn direct_exchange(
    c: CallCoordinator,
    probe1: ProbeEvent,
    probe2: ProbeEvent,
    msgs: PeerMessages,
) -> bool {
    let addr1 = latched(c.handshake_state().client1_udp_addr, probe1);
    let addr2 = latched(c.handshake_state().client2_udp_addr, probe2);
    &&& addr1 is Some
    &&& addr2 is Some
    &&& msgs.to_client1@ == endpoint_wire(addr2->0)
    &&& msgs.to_client2@ == endpoint_wire(addr1->0)
}

impl CallCoordinator {
    /// Opens the handshake: each peer is to be sent, on its own control
    /// channel, PARTNER_FOUND followed by the big-endian port of its own
    /// freshly bound UDP socket; discovery starts with the full retry budget
    /// and no endpoint known.
    pub fn begin_handshake(&mut self, port1: u16, port2: u16) -> (msgs: PeerMessages)
        requires
            old(self).state is HandshakeBegin,
        ensures
            final(self).settings == old(self).settings,
            final(self).state == CallCoordinatorState::Handshake(
                Handshake {
                    client1_udp_addr: None::<Ipv4Endpoint>,
                    client2_udp_addr: None::<Ipv4Endpoint>,
                    retries: RETRY_BUDGET,
                },
            ),
            final(self).wf(),
            msgs.to_client1@ == partner_found_message(port1),
            msgs.to_client2@ == partner_found_message(port2),
    {
        let msgs = PeerMessages {
            to_client1: partner_found_notice(port1),
            to_client2: partner_found_notice(port2),
        };
        self.state = CallCoordinatorState::Handshake(
            Handshake { client1_udp_addr: None, client2_udp_addr: None, retries: RETRY_BUDGET },
        );
        msgs
    }

    /// One discovery tick, fed with what each socket's bounded receive
    /// attempt observed. The returned action tells the caller what the new
    /// state asks of it; in particular `Deliver` carries the crossed
    /// address exchange of direct mode.
    pub fn handshake_tick(&mut self, probe1: ProbeEvent, probe2: ProbeEvent) -> (action: TickAction)
        requires
            old(self).state is Handshake,
            old(self).wf(),
        ensures
            final(self).wf(),
            final(self).settings == old(self).settings,
            final(self).state == handshake_next(*old(self), probe1, probe2),
            match final(self).state {
                CallCoordinatorState::Handshake(_) => action is KeepDiscovering,
                CallCoordinatorState::Aborted(reason) => action == TickAction::Abort(reason),
                CallCoordinatorState::Relay(_, _) => action is StartRelay,
                CallCoordinatorState::Finished => action matches TickAction::Deliver(msgs)
                    && direct_exchange(*old(self), probe1, probe2, msgs),
                CallCoordinatorState::HandshakeBegin => false,
            },
    {
        let h: Handshake = match &self.state {
            CallCoordinatorState::Handshake(h) => *h,
            _ => unreached(),
        };
        if h.retries <= 1 {
            self.state = CallCoordinatorState::Aborted(SessionAbort::DiscoveryTimeout);
            return TickAction::Abort(SessionAbort::DiscoveryTimeout);
        }
        let rejected1 = h.client1_udp_addr.is_none() && matches!(probe1, ProbeEvent::NonIpv4);
        let rejected2 = h.client2_udp_addr.is_none() && matches!(probe2, ProbeEvent::NonIpv4);
        if rejected1 || rejected2 {
            self.state = CallCoordinatorState::Aborted(SessionAbort::UnsupportedPeerAddress);
            return TickAction::Abort(SessionAbort::UnsupportedPeerAddress);
        }
        let addr1 = if h.client1_udp_addr.is_some() {
            h.client1_udp_addr
        } else {
            match probe1 {
                ProbeEvent::Ipv4(addr) => Some(addr),
                _ => None,
            }
        };
        let addr2 = if h.client2_udp_addr.is_some() {
            h.client2_udp_addr
        } else {
            match probe2 {
                ProbeEvent::Ipv4(addr) => Some(addr),
                _ => None,
            }
        };
        match (addr1, addr2) {
            (Some(a1), Some(a2)) => {
                if self.settings.relay {
                    self.state = CallCoordinatorState::Relay(a1, a2);
                    TickAction::StartRelay
                } else {
                    let msgs = PeerMessages {
                        to_client1: a2.to_wire_bytes(),
                        to_client2: a1.to_wire_bytes(),
                    };
                    self.state = CallCoordinatorState::Finished;
                    TickAction::Deliver(msgs)
                }
            },
            _ => {
                self.state = CallCoordinatorState::Handshake(
                    Handshake {
                        client1_udp_addr: addr1,
                        client2_udp_addr: addr2,
                        retries: h.retries - 1,
                    },
                );
                TickAction::KeepDiscovering
            },
        }
    }

    /// The forwarding decision for one relayed datagram: a datagram that
    /// arrived on the first peer's socket goes to the second peer's endpoint
    /// and vice versa, its payload verbatim up to the cap.
    pub fn relay_forward(&self, from_client1: bool, datagram: Vec<u8>) -> (plan: ForwardPlan)
        requires
            self.state is Relay,
        ensures
            self.state matches CallCoordinatorState::Relay(addr1, addr2) ==> plan.dest == (
            if from_client1 {
                addr2
            } else {
                addr1
            }),
            plan.payload@ == clipped(datagram@),
    {
        let dest = match &self.state {
            CallCoordinatorState::Relay(addr1, addr2) => if from_client1 {
                *addr2
            } else {
                *addr1
            },
            _ => unreached(),
        };
        let mut payload = datagram;
        payload.truncate(RELAY_PAYLOAD_CAP);
        ForwardPlan { dest, payload }
    }
}

/// A relayed payload: the datagram itself if it fits the cap, else its first
/// `RELAY_PAYLOAD_CAP` bytes.
pub open spec fn clipped(data: Seq<u8>) -> Seq<u8> {
    if data.len() <= RELAY_PAYLOAD_CAP {
        data
    } else {
        data.take(RELAY_PAYLOAD_CAP as int)
    }
}

/// The PARTNER_FOUND message for a client whose UDP socket got `port`.
pub fn partner_found_notice(port: u16) -> (msg: Vec<u8>)
    ensures
        msg@ == partner_found_message(port),
{
    let mut msg: Vec<u8> = Vec::new();
    msg.push(SIGNAL_PARTNER_FOUND);
    msg.push((port / 256) as u8);
    msg.push((port % 256) as u8);
    proof {
        assert(msg@ =~= partner_found_message(port));
    }
    msg
}

/// One discovery tick over a pair of probe observations, as a step on the
/// whole coordinator.
pub open spec fn discovery_step(
    c: CallCoordinator,
    probes: (ProbeEvent, ProbeEvent),
) -> CallCoordinator
    recommends
        c.state is Handshake,
{
    CallCoordinator { settings: c.settings, state: handshake_next(c, probes.0, probes.1) }
}

/// The coordinator after a run of discovery ticks, one per element of
/// `probes`, stopping as soon as the machine leaves the discovery phase.
pub open spec fn run_discovery(
    c: CallCoordinator,
    probes: Seq<(ProbeEvent, ProbeEvent)>,
) -> CallCoordinator
    decreases probes.len(),
{
    if probes.len() == 0 || !(c.state is Handshake) {
        c
    } else {
        run_discovery(discovery_step(c, probes.first()), probes.drop_first())
    }
}

/// Discovery cannot hang: if one peer's probe never arrives — whatever the
/// other socket hears — the session aborts within its remaining retry budget
/// of ticks. Each tick completes within its fixed receive timeouts and
/// pause, so the budget bounds the wall-clock time to the abort.
pub proof fn lemma_discovery_timeout(c: CallCoordinator, probes: Seq<(ProbeEvent, ProbeEvent)>)
    requires
        c.state is Handshake,
        c.wf(),
        (c.handshake_state().client1_udp_addr is None && forall|i: int|
            0 <= i < probes.len() ==> !((#[trigger] probes[i]).0 is Ipv4)) || (
        c.handshake_state().client2_udp_addr is None && forall|i: int|
            0 <= i < probes.len() ==> !((#[trigger] probes[i]).1 is Ipv4)),
        probes.len() >= c.handshake_state().retries,
    ensures
        run_discovery(c, probes).state is Aborted,
    decreases c.handshake_state().retries,
{
    let h = c.handshake_state();
    let stepped = discovery_step(c, probes.first());
    assert(run_discovery(c, probes) == run_discovery(stepped, probes.drop_first()));
    if stepped.state is Handshake {
        assert(h.retries > 1);
        assert(stepped.handshake_state().retries == h.retries - 1);
        assert(forall|i: int|
            0 <= i < probes.drop_first().len() ==> probes.drop_first()[i] == probes[i + 1]);
        lemma_discovery_timeout(stepped, probes.drop_first());
    } else {
        assert(stepped.state is Aborted || stepped.state is Relay || stepped.state is Finished);
        assert(!(stepped.state is Relay) && !(stepped.state is Finished));
        assert(run_discovery(stepped, probes.drop_first()) == stepped);
    }
}

/// The all-quiet case pinned down exactly: a session whose sockets stay
/// silent while an endpoint is missing aborts with a discovery timeout after
/// exactly its remaining retry budget of ticks.
pub proof fn lemma_silence_times_out(c: CallCoordinator, probes: Seq<(ProbeEvent, ProbeEvent)>)
    requires
        c.state is Handshake,
        c.wf(),
        c.handshake_state().client1_udp_addr is None || c.handshake_state().client2_udp_addr
            is None,
        probes.len() == c.handshake_state().retries,
        forall|i: int|
            0 <= i < probes.len() ==> #[trigger] probes[i] == (
            ProbeEvent::Silent,
            ProbeEvent::Silent,
            ),
    ensures
        run_discovery(c, probes).state == CallCoordinatorState::Aborted(
            SessionAbort::DiscoveryTimeout,
        ),
    decreases c.handshake_state().retries,
{
    let h = c.handshake_state();
    let stepped = discovery_step(c, probes.first());
    assert(run_discovery(c, probes) == run_discovery(stepped, probes.drop_first()));
    if h.retries <= 1 {
        assert(stepped.state == CallCoordinatorState::Aborted(SessionAbort::DiscoveryTimeout));
        assert(run_discovery(stepped, probes.drop_first()) == stepped);
    } else {
        assert(stepped.state == CallCoordinatorState::Handshake(
            Handshake {
                client1_udp_addr: h.client1_udp_addr,
                client2_udp_addr: h.client2_udp_addr,
                retries: (h.retries - 1) as u8,
            },
        ));
        assert(forall|i: int|
            0 <= i < probes.drop_first().len() ==> probes.drop_first()[i] == probes[i + 1]);
        lemma_silence_times_out(stepped, probes.drop_first());
    }
}

/// Latched endpoints are write-once and the budget only ever shrinks:
/// whatever a tick's probes say, an endpoint that was known keeps its value —
/// in the next discovery state or as the endpoint a resolved mode uses — and
/// a tick that stays in discovery charges the budget by exactly one.
pub proof fn lemma_latched_endpoint_stable(
    c: CallCoordinator,
    probe1: ProbeEvent,
    probe2: ProbeEvent,
)
    requires
        c.state is Handshake,
        c.wf(),
    ensures
        match handshake_next(c, probe1, probe2) {
            CallCoordinatorState::Handshake(after) => {
                &&& after.retries == c.handshake_state().retries - 1
                &&& c.handshake_state().client1_udp_addr is Some ==> after.client1_udp_addr
                    == c.handshake_state().client1_udp_addr
                &&& c.handshake_state().client2_udp_addr is Some ==> after.client2_udp_addr
                    == c.handshake_state().client2_udp_addr
            },
            CallCoordinatorState::Relay(addr1, addr2) => {
                &&& c.handshake_state().client1_udp_addr is Some
                    ==> c.handshake_state().client1_udp_addr == Some(addr1)
                &&& c.handshake_state().client2_udp_addr is Some
                    ==> c.handshake_state().client2_udp_addr == Some(addr2)
            },
            _ => true,
        },
{
}

} // verus!
