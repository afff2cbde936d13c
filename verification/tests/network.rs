use autobridge_win::interfaces::{get_interfaces, InterfaceAddr, RawInterface};
use autobridge_win::relay_test::{relay_address, test_relay, ConnectOutcome};

fn raw(name: &str, addr: InterfaceAddr) -> RawInterface {
    RawInterface { name: name.to_string(), addr }
}

#[test]
fn addresses_are_grouped_by_interface() {
    let listed = vec![
        raw("lo", InterfaceAddr::V4([127, 0, 0, 1])),
        raw("eth0", InterfaceAddr::V4([192, 168, 1, 10])),
        raw("wlan0", InterfaceAddr::V6),
        raw("wlan0", InterfaceAddr::V4([10, 0, 0, 255])),
        raw("eth0", InterfaceAddr::V6),
        raw("eth0", InterfaceAddr::V4([169, 254, 7, 0])),
        raw("tun0", InterfaceAddr::V6),
        raw("eth0", InterfaceAddr::V4([127, 1, 2, 3])),
    ];
    let infos = get_interfaces(Ok(listed)).unwrap();
    assert_eq!(infos.len(), 2);
    assert_eq!(infos[0].name, "eth0");
    assert_eq!(infos[0].ip_addresses, vec!["192.168.1.10", "169.254.7.0"]);
    assert_eq!(infos[1].name, "wlan0");
    assert_eq!(infos[1].ip_addresses, vec!["10.0.0.255"]);
}

#[test]
fn no_interfaces() {
    assert_eq!(get_interfaces(Ok(vec![])).unwrap().len(), 0);
    assert_eq!(
        get_interfaces(Err("e".to_string())).unwrap_err(),
        "Impossibile enumerare interfacce: e"
    );
}

#[test]
fn address_of_the_relay() {
    assert_eq!(relay_address("wss://relay.example/ws"), "relay.example:443");
    assert_eq!(relay_address("ws://relay.example/ws/x"), "relay.example:80");
    assert_eq!(relay_address("relay.example"), "relay.example:80");
    assert_eq!(relay_address("wss://relay.example:9000/ws"), "relay.example:9000");
    assert_eq!(relay_address("ws://relay.example:9000"), "relay.example:9000");
    assert_eq!(relay_address("ws://relay.example/ws?at=1:2"), "relay.example:80");
    assert_eq!(relay_address("wss://192.168.1.10/ws"), "192.168.1.10:443");
    assert_eq!(relay_address("ws://è/x"), "è:80");
}

#[test]
fn address_of_a_relay_with_an_ipv6_host() {
    assert_eq!(relay_address("wss://[::1]/ws"), "[::1]:443");
    assert_eq!(relay_address("ws://[::1]"), "[::1]:80");
    assert_eq!(relay_address("wss://[::1]:8443/ws"), "[::1]:8443");
    assert_eq!(relay_address("ws://[fe80::2]:9000"), "[fe80::2]:9000");
}

#[test]
fn tested_address_has_a_port() {
    for url in ["wss://h/p", "ws://h/p", "h", "wss://h:1", "wss://[2001:db8::1]/p", "ws://[::]:1/p"] {
        let address = relay_address(url);
        let (_, port) = address.rsplit_once(':').unwrap();
        assert!(port.parse::<u16>().is_ok(), "{}", address);
    }
}

#[test]
fn result_of_the_relay_test() {
    let up = test_relay("u".to_string(), ConnectOutcome::Connected(25));
    assert!(up.success);
    assert_eq!(up.latency_ms, 25);
    assert_eq!(up.relay_url, "u");
    assert!(up.error.is_none());
    assert_eq!(
        test_relay("u".to_string(), ConnectOutcome::Connected((1 << 32) + 3)).latency_ms,
        3
    );

    let refused = test_relay("u".to_string(), ConnectOutcome::Refused("e".to_string()));
    assert!(!refused.success);
    assert_eq!(refused.latency_ms, 0);
    assert_eq!(refused.error.unwrap(), "Connessione rifiutata: e");

    let late = test_relay("u".to_string(), ConnectOutcome::TimedOut);
    assert!(!late.success);
    assert_eq!(late.latency_ms, 0);
    assert_eq!(late.relay_url, "u");
    assert_eq!(late.error.unwrap(), "Timeout — relay non raggiungibile");
}
