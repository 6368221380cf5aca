//! Socket addresses compiled from address messages.

use vstd::prelude::*;
use vstd::string::*;
use crate::text::{decimal_text, hex_text, decimal_u16, decimal_u32, hex_u16};
use crate::v3;

verus! {

/// An IP address: four octets, or eight 16-bit groups.
#[derive(Clone, Copy, Debug, PartialEq, Eq)]
pub enum IpAddr {
    V4([u8; 4]),
    V6([u16; 8]),
}

/// An IP address and a port.
#[derive(Clone, Copy, Debug, PartialEq, Eq)]
pub struct SocketAddr {
    pub ip: IpAddr,
    pub port: u16,
}

/// Why an address message does not compile.
#[derive(Clone, Debug, PartialEq, Eq)]
pub enum Error {
    UnsupportedAddress(String),
    MissingValue,
    MissingPort,
    PortTooBig(u32),
    Parse(String),
}

/// The text describing an address error.
pub open spec fn error_text(e: Error) -> Seq<char> {
    match e {
        Error::UnsupportedAddress(kind) => "unsupported address type: \""@ + kind@ + "\""@,
        Error::MissingValue => "missing value (likely mistake in creating/serializing protobuf)"@,
        Error::MissingPort => "missing port (likely mistake in creating/serializing protobuf)"@,
        Error::PortTooBig(port) => "port value "@ + decimal_text(port as nat)
            + " bigger than max port of 2^16"@,
        Error::Parse(msg) => "error parsing socket addr: "@ + msg@,
    }
}

impl Error {
    /// A description of the error, for logs.
    pub fn message(&self) -> (r: String)
        ensures
            r@ == error_text(*self),
    {
        match self {
            Error::UnsupportedAddress(kind) => String::from_str("unsupported address type: \"").concat(
                kind.as_str(),
            ).concat("\""),
            Error::MissingValue => String::from_str(
                "missing value (likely mistake in creating/serializing protobuf)",
            ),
            Error::MissingPort => String::from_str(
                "missing port (likely mistake in creating/serializing protobuf)",
            ),
            Error::PortTooBig(port) => {
                let digits = decimal_u32(*port);
                String::from_str("port value ").concat(digits.as_str()).concat(
                    " bigger than max port of 2^16",
                )
            },
            Error::Parse(msg) => String::from_str("error parsing socket addr: ").concat(msg.as_str()),
        }
    }
}

/// A compiled address. Only socket addresses are supported.
#[derive(Clone, Copy, Debug, PartialEq, Eq)]
pub enum Address {
    Socket(SocketAddr),
}

/// The largest port number.
pub const MAX_PORT: u32 = 65535;

/// The eight groups of an IPv6 address, hexadecimal, separated by colons.
pub open spec fn groups_text(g: Seq<u16>) -> Seq<char>
    decreases g.len(),
{
    if g.len() == 0 {
        Seq::empty()
    } else if g.len() == 1 {
        hex_text(g[0] as nat)
    } else {
        groups_text(g.drop_last()) + seq![':'] + hex_text(g.last() as nat)
    }
}

/// The text of an IP address in a URI authority: dotted decimal for IPv4;
/// for IPv6 the eight groups in brackets, uncompressed.
pub open spec fn ip_text(ip: IpAddr) -> Seq<char> {
    match ip {
        IpAddr::V4(o) => decimal_text(o@[0] as nat) + seq!['.'] + decimal_text(o@[1] as nat)
            + seq!['.'] + decimal_text(o@[2] as nat) + seq!['.'] + decimal_text(o@[3] as nat),
        IpAddr::V6(g) => seq!['['] + groups_text(g@) + seq![']'],
    }
}

/// `host:port` for a socket address.
pub open spec fn authority_text(sa: SocketAddr) -> Seq<char> {
    ip_text(sa.ip) + seq![':'] + decimal_text(sa.port as nat)
}

impl SocketAddr {
    /// The URI authority (`host:port`) of this address.
    pub fn authority(&self) -> (r: String)
        ensures
            r@ == authority_text(*self),
    {
        let mut s = String::new();
        match self.ip {
            IpAddr::V4(o) => {
                let a = decimal_u16(o[0] as u16);
                let b = decimal_u16(o[1] as u16);
                let c = decimal_u16(o[2] as u16);
                let d = decimal_u16(o[3] as u16);
                proof {
                    reveal_strlit(".");
                }
                s.append(a.as_str());
                s.append(".");
                s.append(b.as_str());
                s.append(".");
                s.append(c.as_str());
                s.append(".");
                s.append(d.as_str());
                assert(s@ =~= ip_text(self.ip));
            },
            IpAddr::V6(g) => {
                proof {
                    reveal_strlit("[");
                    reveal_strlit("]");
                    reveal_strlit(":");
                }
                s.append("[");
                let mut i: usize = 0;
                while i < 8
                    invariant
                        i <= 8,
                        g@.len() == 8,
                        s@ == seq!['['] + groups_text(g@.subrange(0, i as int)),
                    decreases 8 - i,
                {
                    let h = hex_u16(g[i]);
                    let ghost before = s@;
                    proof {
                        reveal_strlit(":");
                    }
                    if i > 0 {
                        s.append(":");
                    }
                    s.append(h.as_str());
                    proof {
                        let next = g@.subrange(0, i + 1);
                        assert(next.drop_last() =~= g@.subrange(0, i as int));
                        assert(next.last() == g@[i as int]);
                        if i == 0 {
                            assert(s@ =~= seq!['['] + groups_text(next));
                        } else {
                            assert(groups_text(next) == groups_text(next.drop_last()) + seq![':']
                                + hex_text(next.last() as nat));
                            assert(s@ =~= before + seq![':'] + h@);
                            assert(s@ =~= seq!['['] + groups_text(next));
                        }
                    }
                    i = i + 1;
                }
                assert(g@.subrange(0, 8) =~= g@);
                s.append("]");
                assert(s@ =~= ip_text(self.ip));
            },
        }
        proof {
            reveal_strlit(":");
        }
        let ghost host = s@;
        assert(host == ip_text(self.ip));
        let p = decimal_u16(self.port);
        s.append(":");
        s.append(p.as_str());
        assert(s@ =~= authority_text(*self));
        s
    }
}

/// The address an address message compiles to, if it compiles.
pub open spec fn address_of(value: v3::Address) -> Option<Address> {
    match value.address {
        Some(v3::AddressKind::SocketAddress(sa)) => match (sa.port_value, sa.address) {
            (Some(port), v3::IpLiteral::Ip(ip)) => if port <= MAX_PORT {
                Some(Address::Socket(SocketAddr { ip, port: port as u16 }))
            } else {
                None
            },
            _ => None,
        },
        _ => None,
    }
}

/// What compiling an address message gives. The checks come in this order: an
/// address is set; it is a socket address; it has a numeric port; its IP
/// literal parsed; the port is at most 65535.
pub open spec fn compiles_to(value: v3::Address, r: Result<Address, Error>) -> bool {
    &&& match value.address {
        None => r == Err::<Address, Error>(Error::MissingValue),
        Some(v3::AddressKind::Pipe) => r matches Err(Error::UnsupportedAddress(k)) && k@
            == "pipe"@,
        Some(v3::AddressKind::EnvoyInternalAddress) => r matches Err(
            Error::UnsupportedAddress(k),
        ) && k@ == "envoy_internal_address"@,
        Some(v3::AddressKind::SocketAddress(sa)) => match sa.port_value {
            None => r == Err::<Address, Error>(Error::MissingPort),
            Some(port) => match sa.address {
                v3::IpLiteral::Unparsable(msg) => r == Err::<Address, Error>(Error::Parse(msg)),
                v3::IpLiteral::Ip(ip) => if port <= MAX_PORT {
                    r == Ok::<Address, Error>(
                        Address::Socket(SocketAddr { ip, port: port as u16 }),
                    )
                } else {
                    r == Err::<Address, Error>(Error::PortTooBig(port))
                },
            },
        },
    }
    &&& match r {
        Ok(a) => address_of(value) == Some(a),
        Err(_) => address_of(value) is None,
    }
}

impl Address {
    /// Compiles an address message.
    pub fn try_from(value: v3::Address) -> (r: Result<Address, Error>)
        ensures
            compiles_to(value, r),
    {
        Address::compile(&value)
    }

    /// Compiles an address message held by reference.
    pub fn compile(value: &v3::Address) -> (r: Result<Address, Error>)
        ensures
            compiles_to(*value, r),
    {
        match &value.address {
            None => Err(Error::MissingValue),
            Some(v3::AddressKind::SocketAddress(sa)) => match sa.port_value {
                Some(port) => {
                    let ip = match &sa.address {
                        v3::IpLiteral::Ip(ip) => *ip,
                        v3::IpLiteral::Unparsable(msg) => return Err(Error::Parse(msg.clone())),
                    };
                    if port > MAX_PORT {
                        return Err(Error::PortTooBig(port));
                    }
                    Ok(Address::Socket(SocketAddr { ip, port: port as u16 }))
                },
                None => Err(Error::MissingPort),
            },
            Some(v3::AddressKind::Pipe) => Err(Error::UnsupportedAddress(String::from_str("pipe"))),
            Some(v3::AddressKind::EnvoyInternalAddress) => Err(
                Error::UnsupportedAddress(String::from_str("envoy_internal_address")),
            ),
        }
    }
}

} // verus!
