use portfwd::features::{Features, Protocol};

#[test]
fn tcp_switch_alone_serves_tcp_only() {
    let features = Features { tcp: true, udp: false };
    assert!(features.serves(Protocol::Tcp));
    assert!(!features.serves(Protocol::Udp));
}

#[test]
fn udp_switch_alone_serves_udp_only() {
    let features = Features { tcp: false, udp: true };
    assert!(!features.serves(Protocol::Tcp));
    assert!(features.serves(Protocol::Udp));
}

#[test]
fn no_switch_serves_both_protocols() {
    let features = Features { tcp: false, udp: false };
    assert!(features.serves(Protocol::Tcp));
    assert!(features.serves(Protocol::Udp));
}

#[test]
fn both_switches_serve_both_protocols() {
    let features = Features { tcp: true, udp: true };
    assert!(features.serves(Protocol::Tcp));
    assert!(features.serves(Protocol::Udp));
}

#[test]
fn some_protocol_is_always_served() {
    for tcp in [false, true] {
        for udp in [false, true] {
            let features = Features { tcp, udp };
            assert!(features.serves(Protocol::Tcp) || features.serves(Protocol::Udp));
        }
    }
}

#[test]
fn features_compare_by_their_switches() {
    assert_eq!(Features { tcp: true, udp: false }, Features { tcp: true, udp: false });
    assert_ne!(Features { tcp: true, udp: false }, Features { tcp: false, udp: true });
    assert_ne!(Protocol::Tcp, Protocol::Udp);
}
