use vstd::prelude::*;
use crate::coordinator::SIGNAL_PARTNER_FOUND;
use crate::registry::SIGNAL_WAITING_IN_ROOM;
use crate::wire::Ipv4Endpoint;
use crate::wire::addr_from_bytes;
use crate::wire::endpoint_of_wire;

verus! {

/// Signal a client answers in kind; the server side of this protocol never
/// sends it, but a client must be ready for it.
pub const SIGNAL_READY: u8 = 3;

/// Quiet reads a client tolerates before it has been told it is waiting.
pub const INITIAL_PATIENCE: u32 = 100;

/// Quiet reads a client tolerates once the server confirmed it is waiting in
/// a room.
pub const WAITING_PATIENCE: u32 = 6000;

/// What a client does with one read off its control channel while it waits
/// to be given its UDP port.
#[derive(Clone, Copy, Debug, PartialEq, Eq, Structural)]
pub enum ClientStep {
    /// Keep polling the channel, now with this much patience.
    KeepWaiting { patience: u32 },
    /// PARTNER_FOUND arrived: the next two bytes are the client's own UDP
    /// port, big-endian.
    ReadPartnerPort,
    /// READY arrived: answer with READY and keep polling.
    AcknowledgeReady { patience: u32 },
    /// An unknown signal byte: a protocol violation, fatal to the session.
    FailUnexpectedSignal { signal: u8 },
    /// The server stayed quiet until patience ran out.
    FailUnresponsive,
}

/// One turn of the client's signal loop: a WAITING_IN_ROOM note resets the
/// client's patience to the long waiting budget, PARTNER_FOUND moves on to
/// the port bytes, READY is echoed, any other byte is fatal, and a quiet read
/// costs one unit of patience until none is left.
pub fn client_signal_step(patience: u32, signal: Option<u8>) -> (step: ClientStep)
    requires
        patience >= 1,
    ensures
        step == (match signal {
            Some(s) => {
                if s == SIGNAL_WAITING_IN_ROOM {
                    ClientStep::KeepWaiting { patience: WAITING_PATIENCE }
                } else if s == SIGNAL_PARTNER_FOUND {
                    ClientStep::ReadPartnerPort
                } else if s == SIGNAL_READY {
                    ClientStep::AcknowledgeReady { patience }
                } else {
                    ClientStep::FailUnexpectedSignal { signal: s }
                }
            },
            None => {
                if patience == 1 {
                    ClientStep::FailUnresponsive
                } else {
                    ClientStep::KeepWaiting { patience: (patience - 1) as u32 }
                }
            },
        }),
{
    match signal {
        Some(s) => {
            if s == SIGNAL_WAITING_IN_ROOM {
                ClientStep::KeepWaiting { patience: WAITING_PATIENCE }
            } else if s == SIGNAL_PARTNER_FOUND {
                ClientStep::ReadPartnerPort
            } else if s == SIGNAL_READY {
                ClientStep::AcknowledgeReady { patience }
            } else {
                ClientStep::FailUnexpectedSignal { signal: s }
            }
        },
        None => {
            if patience == 1 {
                ClientStep::FailUnresponsive
            } else {
                ClientStep::KeepWaiting { patience: patience - 1 }
            }
        },
    }
}

/// Where a client sends its call traffic once discovery is done: in relay
/// mode every datagram goes to the server's UDP socket, which never discloses
/// the peer; in direct mode the 6 bytes from the control channel are the
/// peer's own endpoint, and anything but exactly 6 bytes is a protocol
/// violation.
pub fn select_peer_endpoint(relay: bool, server_udp: Ipv4Endpoint, exchange: &Vec<u8>) -> (peer:
    Option<Ipv4Endpoint>)
    ensures
        relay ==> peer == Some(server_udp),
        !relay ==> peer == (if exchange@.len() == 6 {
            Some(endpoint_of_wire(exchange@))
        } else {
            None::<Ipv4Endpoint>
        }),
{
    if relay {
        Some(server_udp)
    } else if exchange.len() == 6 {
        Some(addr_from_bytes(exchange))
    } else {
        None
    }
}

} // verus!
