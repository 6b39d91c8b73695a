//! Hardware and protocol addresses, held as plain octets, and their
//! construction from the textual form the host supplies. The textual
//! grammars (six hex octets joined by `:` or `-`; IPv4 dotted decimal or
//! IPv6 notation) belong to the protocol engine's parsers, which are relied
//! on here and whose results are named rather than restated.

use vstd::prelude::*;

verus! {

/// A six-octet Ethernet hardware address.
#[derive(Clone, Copy, Debug)]
pub struct HardwareAddr {
    pub octets: [u8; 6],
}

/// A network-layer address: four octets for IPv4, sixteen for IPv6.
#[derive(Clone, Copy, Debug)]
pub enum ProtocolAddr {
    V4 { octets: [u8; 4] },
    V6 { octets: [u8; 16] },
}

/// The octets of a protocol address; their count tells the two families
/// apart.
pub open spec fn ip_bytes(a: ProtocolAddr) -> Seq<u8> {
    match a {
        ProtocolAddr::V4 { octets } => octets@,
        ProtocolAddr::V6 { octets } => octets@,
    }
}

/// What the protocol engine's hardware-address parser makes of `s`: the six
/// parsed octets, or nothing when `s` is malformed. A function of the text
/// alone.
pub uninterp spec fn hw_text_addr(s: Seq<char>) -> Option<Seq<u8>>;

/// What the protocol engine's protocol-address parser makes of `s`: the four
/// or sixteen parsed octets, or nothing when `s` is malformed. A function of
/// the text alone.
pub uninterp spec fn ip_text_addr(s: Seq<char>) -> Option<Seq<u8>>;

/// Relies on smoltcp's `EthernetAddress` `FromStr` impl: parses six
/// hexadecimal octets joined by `:` or by `-`, and fails on anything else.
#[verifier::external_body]
pub(crate) fn parse_hardware_addr(s: &str) -> (r: Option<HardwareAddr>)
    ensures
        r is Some <==> hw_text_addr(s@) is Some,
        r matches Some(a) ==> hw_text_addr(s@) == Some(a.octets@),
{
    match <smoltcp::wire::EthernetAddress as core::str::FromStr>::from_str(s) {
        Ok(a) => Some(HardwareAddr { octets: a.0 }),
        Err(()) => None,
    }
}

/// Relies on smoltcp's `IpAddress` `FromStr` impl: parses an IPv4 or an IPv6
/// address from its textual notation, and fails on anything else.
#[verifier::external_body]
pub(crate) fn parse_protocol_addr(s: &str) -> (r: Option<ProtocolAddr>)
    ensures
        r is Some <==> ip_text_addr(s@) is Some,
        r matches Some(a) ==> ip_text_addr(s@) == Some(ip_bytes(a)),
{
    match <smoltcp::wire::IpAddress as core::str::FromStr>::from_str(s) {
        Ok(smoltcp::wire::IpAddress::Ipv4(a)) => Some(ProtocolAddr::V4 { octets: a.octets() }),
        Ok(smoltcp::wire::IpAddress::Ipv6(a)) => Some(ProtocolAddr::V6 { octets: a.octets() }),
        Err(()) => None,
    }
}

} // verus!
