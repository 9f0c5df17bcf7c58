//! The network a client reports its address in, as a scan or a visit records it.

use vstd::prelude::*;
use sqlx::types::ipnetwork::IpNetwork;

verus! {

/// An IP network: its family, its address (an IPv4 address in the low 32 bits) and the
/// length of its prefix. A plain address is the network of that one host.
#[derive(Debug, Clone, Copy, PartialEq, Eq, Structural)]
pub struct IpNet {
    pub v6: bool,
    pub address: u128,
    pub prefix: u8,
}

/// What ipnetwork's `IpNetwork::from_str` reads in `text`, if it reads a network.
pub uninterp spec fn network_text_parse(text: Seq<char>) -> Option<IpNet>;

/// Calls `text.parse::<IpNetwork>()` (ipnetwork, through sqlx). Claimed: the result is a
/// function of `text` alone; a network it reads has a prefix of at most 32 bits for IPv4
/// (its address fits in 32 bits) and at most 128 for IPv6, as `Ipv4Network::new` and
/// `Ipv6Network::new` check. A text without a prefix is read with the full prefix, but
/// which texts are read is left to the name.
#[verifier::external_body]
fn parse_network_text(text: &str) -> (r: Option<IpNet>)
    ensures
        r == network_text_parse(text@),
        r matches Some(n) ==> n.prefix <= (if n.v6 { 128u8 } else { 32u8 }),
        r matches Some(n) ==> (!n.v6 ==> n.address < 0x1_0000_0000),
{
    match text.parse::<IpNetwork>() {
        Ok(IpNetwork::V4(n)) => Some(IpNet { v6: false, address: u32::from(n.ip()) as u128, prefix: n.prefix() }),
        Ok(IpNetwork::V6(n)) => Some(IpNet { v6: true, address: u128::from(n.ip()), prefix: n.prefix() }),
        Err(_) => None,
    }
}

/// The network of the address a client reports, if it reports one that reads as a network;
/// a plain address stands for itself.
pub fn parse_ip_network(ip: Option<&str>) -> (r: Option<IpNet>)
    ensures
        r == match ip {
            None => None,
            Some(t) => network_text_parse(t@),
        },
        r matches Some(n) ==> n.prefix <= (if n.v6 { 128u8 } else { 32u8 }),
{
    match ip {
        None => None,
        Some(text) => parse_network_text(text),
    }
}

} // verus!
