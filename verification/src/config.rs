use vstd::prelude::*;
use crate::text::{decimal, push_decimal};

verus! {

/// The port IPP listens on by default.
pub const IPP_PORT: u16 = 631;

/// An IP address, as its 32-bit (IPv4) or 128-bit (IPv6) number.
#[derive(Clone, Copy, Debug, PartialEq, Eq, Structural)]
pub enum IpAddress {
    V4(u32),
    V6(u128),
}

/// An IP address and a port.
#[derive(Clone, Copy, Debug, PartialEq, Eq, Structural)]
pub struct SocketAddress {
    pub ip: IpAddress,
    pub port: u16,
}

/// A configuration value given once or as a list.
#[derive(Clone, Debug)]
pub enum OneOrMany<T> {
    One(T),
    Many(Vec<T>),
}

impl<T> OneOrMany<T> {
    /// The values, in order.
    pub open spec fn items(self) -> Seq<T> {
        match self {
            OneOrMany::One(v) => seq![v],
            OneOrMany::Many(v) => v@,
        }
    }

    /// The values, in order, as a list.
    pub fn into_vec(self) -> (r: Vec<T>)
        ensures
            r@ == self.items(),
    {
        match self {
            OneOrMany::One(v) => {
                let mut r = Vec::new();
                r.push(v);
                r
            },
            OneOrMany::Many(v) => v,
        }
    }
}

/// The unspecified IPv4 address `0.0.0.0`.
pub open spec fn unspecified_v4() -> IpAddress {
    IpAddress::V4(0)
}

/// The unspecified IPv6 address `::`.
pub open spec fn unspecified_v6() -> IpAddress {
    IpAddress::V6(0)
}

/// The addresses the server listens on when the configuration names none:
/// port 631 on every IPv4 and every IPv6 address.
pub fn default_addr() -> (r: OneOrMany<SocketAddress>)
    ensures
        r.items() == seq![
            SocketAddress { ip: unspecified_v4(), port: IPP_PORT },
            SocketAddress { ip: unspecified_v6(), port: IPP_PORT },
        ],
{
    let mut v = Vec::new();
    v.push(SocketAddress { ip: IpAddress::V4(0), port: IPP_PORT });
    v.push(SocketAddress { ip: IpAddress::V6(0), port: IPP_PORT });
    let r = OneOrMany::Many(v);
    assert(r.items() =~= seq![
        SocketAddress { ip: unspecified_v4(), port: IPP_PORT },
        SocketAddress { ip: unspecified_v6(), port: IPP_PORT },
    ]);
    r
}

/// The certificate and key files of a TLS listener.
#[derive(Clone, Debug)]
pub struct TlsConfig {
    pub cert: String,
    pub key: String,
}

/// Where and how the server listens.
#[derive(Clone, Debug)]
pub struct ServerConfig {
    pub addr: OneOrMany<SocketAddress>,
    pub host: Option<String>,
    pub tls: Option<TlsConfig>,
}

/// A shared printer.
#[derive(Clone, Debug)]
pub struct DeviceConfig {
    /// The name clients see.
    pub name: String,
    /// The description clients see.
    pub info: String,
    /// The name of the Windows printer that prints.
    pub target: String,
    /// The printer's UUID, as its sixteen bytes.
    pub uuid: [u8; 16],
    /// The path under which the printer is served.
    pub basepath: String,
    /// Whether the printer is announced over DNS-SD.
    pub dnssd: bool,
    pub make_and_model: String,
}

/// The whole configuration.
#[derive(Clone, Debug)]
pub struct ConfigRoot {
    pub server: ServerConfig,
    pub devices: Vec<DeviceConfig>,
}

/// The make-and-model text a device gets when its configuration names none.
pub fn default_make_and_model() -> (text: String)
    ensures
        text@ == "IppSharing via ippper"@,
{
    String::from_str("IppSharing via ippper")
}

/// The port the printers are announced with: that of the one address, or of
/// the first of the list, or 631 when the list is empty.
pub open spec fn spec_service_port(addr: OneOrMany<SocketAddress>) -> u16 {
    let items = addr.items();
    if items.len() > 0 {
        items[0].port
    } else {
        IPP_PORT
    }
}

/// The port the printers are announced with: that of the one address, or of
/// the first of the list, or 631 when the list is empty.
pub fn service_port(addr: &OneOrMany<SocketAddress>) -> (port: u16)
    ensures
        port == spec_service_port(*addr),
{
    match addr {
        OneOrMany::One(a) => a.port,
        OneOrMany::Many(v) => {
            if v.len() > 0 {
                v[0].port
            } else {
                IPP_PORT
            }
        },
    }
}

/// The host name the printers are served under: the configured one, or
/// `<machine name>.local:<port>`.
pub open spec fn spec_host(configured: Option<Seq<char>>, machine_name: Seq<char>, port: u16) -> Seq<char> {
    match configured {
        Some(h) => h,
        None => machine_name + ".local:"@ + decimal(port as nat),
    }
}

/// The view of an optional string.
pub open spec fn opt_string_view(s: Option<String>) -> Option<Seq<char>> {
    match s {
        Some(v) => Some(v@),
        None => None,
    }
}

/// The host name the printers are served under: the configured one, or
/// `<machine name>.local:<port>`.
pub fn resolve_host(server: &ServerConfig, machine_name: &str, port: u16) -> (host: String)
    ensures
        host@ == spec_host(opt_string_view(server.host), machine_name@, port),
{
    match &server.host {
        Some(h) => h.clone(),
        None => {
            let mut host = String::from_str(machine_name);
            host.append(".local:");
            push_decimal(&mut host, port as u32);
            host
        },
    }
}

} // verus!
