use vstd::prelude::*;

verus! {

/// A peer's UDP endpoint as the server observes it: an IPv4 address and a
/// port. IPv4 is the only address family the protocol supports; a non-IPv4
/// source is rejected before a value of this type is ever formed.
#[derive(Clone, Copy, Debug, PartialEq, Eq, Structural)]
pub struct Ipv4Endpoint {
    pub ip0: u8,
    pub ip1: u8,
    pub ip2: u8,
    pub ip3: u8,
    pub port: u16,
}

/// High byte of a port in big-endian order.
pub open spec fn port_hi(port: u16) -> u8 {
    (port / 256) as u8
}

/// Low byte of a port in big-endian order.
pub open spec fn port_lo(port: u16) -> u8 {
    (port % 256) as u8
}

/// The 6-byte wire form of an endpoint: the four address octets followed by
/// the big-endian port.
pub open spec fn endpoint_wire(e: Ipv4Endpoint) -> Seq<u8> {
    seq![e.ip0, e.ip1, e.ip2, e.ip3, port_hi(e.port), port_lo(e.port)]
}

/// The endpoint that the first 6 bytes of a buffer denote.
pub open spec fn endpoint_of_wire(b: Seq<u8>) -> Ipv4Endpoint
    recommends
        b.len() >= 6,
{
    Ipv4Endpoint {
        ip0: b[0],
        ip1: b[1],
        ip2: b[2],
        ip3: b[3],
        port: (b[4] * 256 + b[5]) as u16,
    }
}

impl Ipv4Endpoint {
    /// Serialises this endpoint into its 6-byte wire form, as written to the
    /// other peer's control channel in direct mode.
    pub fn to_wire_bytes(&self) -> (bytes: Vec<u8>)
        ensures
            bytes@ == endpoint_wire(*self),
    {
        let mut bytes: Vec<u8> = Vec::new();
        bytes.push(self.ip0);
        bytes.push(self.ip1);
        bytes.push(self.ip2);
        bytes.push(self.ip3);
        bytes.push((self.port / 256) as u8);
        bytes.push((self.port % 256) as u8);
        proof {
            assert(bytes@ =~= endpoint_wire(*self));
        }
        bytes
    }
}

/// Reads an endpoint out of the first 6 bytes of a buffer: four address
/// octets, then the big-endian port.
pub fn addr_from_bytes(buffer: &Vec<u8>) -> (e: Ipv4Endpoint)
    requires
        buffer@.len() >= 6,
    ensures
        e == endpoint_of_wire(buffer@),
{
    let port: u16 = (buffer[4] as u16) * 256 + (buffer[5] as u16);
    Ipv4Endpoint { ip0: buffer[0], ip1: buffer[1], ip2: buffer[2], ip3: buffer[3], port }
}

/// Reassembles a big-endian 2-byte port, as a client does with the two bytes
/// that follow a PARTNER_FOUND signal.
pub fn port_from_bytes(hi: u8, lo: u8) -> (port: u16)
    ensures
        port == hi * 256 + lo,
        hi == port_hi(port) && lo == port_lo(port),
{
    let port: u16 = (hi as u16) * 256 + (lo as u16);
    proof {
        assert(port / 256 == hi && port % 256 == lo) by (nonlinear_arith)
            requires
                port == hi * 256 + lo,
                hi <= 255,
                lo <= 255,
        ;
    }
    port
}

/// Decoding the wire form of an endpoint yields that endpoint: what the
/// server writes in direct mode, the client reads back unchanged.
pub proof fn lemma_endpoint_wire_round_trip(e: Ipv4Endpoint)
    ensures
        endpoint_of_wire(endpoint_wire(e)) == e,
{
    vstd::arithmetic::div_mod::lemma_fundamental_div_mod(e.port as int, 256);
}

} // verus!
