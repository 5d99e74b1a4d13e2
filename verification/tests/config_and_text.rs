use ipp_sharing_core::config::{
    default_addr, default_make_and_model, resolve_host, service_port, IpAddress, OneOrMany,
    ServerConfig, SocketAddress, TlsConfig,
};
use ipp_sharing_core::text::{int_to_decimal, join};

fn addr(port: u16) -> SocketAddress {
    SocketAddress { ip: IpAddress::V4(0x7f00_0001), port }
}

#[test]
fn make_and_model_default() {
    assert_eq!(default_make_and_model(), "IppSharing via ippper");
}

#[test]
fn default_addresses_listen_on_both_families() {
    let v = default_addr().into_vec();
    assert_eq!(
        v,
        vec![
            SocketAddress { ip: IpAddress::V4(0), port: 631 },
            SocketAddress { ip: IpAddress::V6(0), port: 631 },
        ]
    );
}

#[test]
fn one_or_many_into_vec() {
    assert_eq!(OneOrMany::One(addr(80)).into_vec(), vec![addr(80)]);
    assert_eq!(OneOrMany::Many(vec![addr(1), addr(2)]).into_vec(), vec![addr(1), addr(2)]);
    assert_eq!(OneOrMany::<SocketAddress>::Many(vec![]).into_vec(), vec![]);
}

#[test]
fn port_of_first_address() {
    assert_eq!(service_port(&OneOrMany::One(addr(8631))), 8631);
    assert_eq!(service_port(&OneOrMany::Many(vec![addr(1631), addr(2631)])), 1631);
    assert_eq!(service_port(&OneOrMany::Many(vec![])), 631);
}

#[test]
fn host_is_configured_or_derived() {
    let mut server = ServerConfig { addr: default_addr(), host: None, tls: None };
    assert_eq!(resolve_host(&server, "printbox", 631), "printbox.local:631");
    assert_eq!(resolve_host(&server, "printbox", 0), "printbox.local:0");
    assert_eq!(resolve_host(&server, "printbox", 65535), "printbox.local:65535");
    server.host = Some("printers.example:8631".to_string());
    server.tls = Some(TlsConfig { cert: "c.pem".to_string(), key: "k.pem".to_string() });
    assert_eq!(resolve_host(&server, "printbox", 631), "printers.example:8631");
}

#[test]
fn decimal_notation() {
    assert_eq!(int_to_decimal(0), "0");
    assert_eq!(int_to_decimal(600), "600");
    assert_eq!(int_to_decimal(-305), "-305");
    assert_eq!(int_to_decimal(i32::MAX), "2147483647");
    assert_eq!(int_to_decimal(i32::MIN), "-2147483648");
}

#[test]
fn join_with_separator() {
    assert_eq!(join(&vec![], ","), "");
    assert_eq!(join(&vec!["a".to_string()], ","), "a");
    assert_eq!(join(&vec!["a".to_string(), "bc".to_string(), "".to_string()], "--"), "a--bc--");
}
