use socks_uot::address::{Address, SocketAddress};
use socks_uot::allocator::{after_bind, candidate, draw_port, first_candidate, Allocation};
use socks_uot::config::{
    UdpConfig, DEFAULT_MAX_PORT, DEFAULT_MIN_PORT, DEFAULT_MTU, MAX_UDP_HEADER_LEN,
};
use socks_uot::error::RelayError;

fn any_host() -> SocketAddress {
    SocketAddress::V4 { ip: [0, 0, 0, 0], port: 1080 }
}

#[test]
fn default_config() {
    let config = UdpConfig::default();
    assert_eq!(config.mtu, 9000);
    assert_eq!(config.min_port, 40000);
    assert_eq!(config.max_port, 65535);
    assert_eq!((DEFAULT_MTU, DEFAULT_MIN_PORT, DEFAULT_MAX_PORT), (9000, 40000, 65535));
    assert!(config.is_well_formed());
}

#[test]
fn config_needs_a_port_interval() {
    assert_eq!(
        UdpConfig::new(1500, 5000, 5000),
        Some(UdpConfig { mtu: 1500, min_port: 5000, max_port: 5000 })
    );
    assert_eq!(
        UdpConfig::new(0, 0, 65535),
        Some(UdpConfig { mtu: 0, min_port: 0, max_port: 65535 })
    );
    assert_eq!(UdpConfig::new(1500, 5001, 5000), None);
    assert!(!UdpConfig { mtu: 1, min_port: 2, max_port: 1 }.is_well_formed());
}

#[test]
fn config_port_interval_is_closed() {
    let config = UdpConfig { mtu: 9000, min_port: 100, max_port: 200 };
    assert!(config.contains_port(100));
    assert!(config.contains_port(150));
    assert!(config.contains_port(200));
    assert!(!config.contains_port(99));
    assert!(!config.contains_port(201));
}

#[test]
fn receive_buffer_sizes() {
    let config = UdpConfig::default();
    assert_eq!(MAX_UDP_HEADER_LEN, 262);
    assert_eq!(config.front_buffer_len(), Some(9262));
    assert_eq!(config.back_buffer_len(), 9000);
    let empty = UdpConfig { mtu: 0, min_port: 1, max_port: 1 };
    assert_eq!(empty.front_buffer_len(), Some(262));
    assert_eq!(empty.back_buffer_len(), 0);
    let edge = UdpConfig { mtu: usize::MAX - 262, min_port: 1, max_port: 1 };
    assert_eq!(edge.front_buffer_len(), Some(usize::MAX));
    let over = UdpConfig { mtu: usize::MAX - 261, min_port: 1, max_port: 1 };
    assert_eq!(over.front_buffer_len(), None);
    assert_eq!(over.back_buffer_len(), usize::MAX - 261);
}

#[test]
fn drawn_ports_stay_in_the_interval() {
    let config = UdpConfig { mtu: 9000, min_port: 40000, max_port: 40009 };
    let mut seen = [false; 10];
    for _ in 0..2000 {
        let port = draw_port(&config);
        assert!(config.contains_port(port));
        seen[(port - 40000) as usize] = true;
    }
    // Two thousand draws from ten ports miss one with a chance below 1e-90.
    assert!(seen.iter().all(|hit| *hit));
}

#[test]
fn drawn_ports_reach_both_ends_of_the_widest_interval() {
    let config = UdpConfig { mtu: 9000, min_port: 0, max_port: 65535 };
    let mut low = false;
    let mut high = false;
    for _ in 0..2000 {
        let port = draw_port(&config);
        low = low || port < 32768;
        high = high || port >= 32768;
    }
    assert!(low && high);
}

#[test]
fn candidate_keeps_the_host() {
    let config = UdpConfig::default();
    for _ in 0..200 {
        match candidate(any_host(), &config) {
            SocketAddress::V4 { ip, port } => {
                assert_eq!(ip, [0, 0, 0, 0]);
                assert!(config.contains_port(port));
            }
            other => panic!("{:?}", other),
        }
    }
    let mut ip = [0u8; 16];
    ip[0] = 0xfe;
    ip[1] = 0x80;
    let local = SocketAddress::V6 { ip, port: 1, flowinfo: 9, scope_id: 4 };
    match candidate(local, &config) {
        SocketAddress::V6 { ip: kept, port, flowinfo, scope_id } => {
            assert_eq!(kept, ip);
            assert!(config.contains_port(port));
            assert_eq!((flowinfo, scope_id), (9, 4));
        }
        other => panic!("{:?}", other),
    }
}

#[test]
fn host_without_address_is_the_one_error() {
    assert_eq!(first_candidate(None, &UdpConfig::default()), Err(RelayError::Unresolved));
    let one = UdpConfig { mtu: 9000, min_port: 45678, max_port: 45678 };
    assert_eq!(first_candidate(None, &one), Err(RelayError::Unresolved));
}

#[test]
fn first_candidate_is_the_host_with_a_drawn_port() {
    let config = UdpConfig { mtu: 9000, min_port: 41000, max_port: 41003 };
    for _ in 0..200 {
        match first_candidate(Some(any_host()), &config) {
            Ok(SocketAddress::V4 { ip, port }) => {
                assert_eq!(ip, [0, 0, 0, 0]);
                assert!(config.contains_port(port));
            }
            other => panic!("{:?}", other),
        }
    }
    let one = UdpConfig { mtu: 9000, min_port: 45678, max_port: 45678 };
    assert_eq!(
        first_candidate(Some(any_host()), &one),
        Ok(SocketAddress::V4 { ip: [0, 0, 0, 0], port: 45678 })
    );
}

#[test]
fn interval_of_one_port_leaves_no_choice() {
    let config = UdpConfig { mtu: 9000, min_port: 45678, max_port: 45678 };
    for _ in 0..100 {
        assert_eq!(draw_port(&config), 45678);
        assert_eq!(
            candidate(any_host(), &config),
            SocketAddress::V4 { ip: [0, 0, 0, 0], port: 45678 }
        );
    }
}

#[test]
fn taken_port_is_tried_again_without_end() {
    let config = UdpConfig { mtu: 9000, min_port: 45678, max_port: 45678 };
    let mut tried = candidate(any_host(), &config);
    for _ in 0..1000 {
        match after_bind(tried, false, &config) {
            Allocation::Retry(next) => {
                assert_eq!(next, SocketAddress::V4 { ip: [0, 0, 0, 0], port: 45678 });
                tried = next;
            }
            Allocation::Done(address) => panic!("{:?}", address),
        }
    }
}

#[test]
fn failed_bind_draws_again_for_the_same_host() {
    let config = UdpConfig { mtu: 9000, min_port: 50000, max_port: 50100 };
    let tried = SocketAddress::V4 { ip: [10, 1, 2, 3], port: 50050 };
    for _ in 0..200 {
        match after_bind(tried, false, &config) {
            Allocation::Retry(SocketAddress::V4 { ip, port }) => {
                assert_eq!(ip, [10, 1, 2, 3]);
                assert!(config.contains_port(port));
            }
            other => panic!("{:?}", other),
        }
    }
}

#[test]
fn bound_socket_ends_the_search_with_its_address() {
    let config = UdpConfig::default();
    let tried = SocketAddress::V4 { ip: [10, 1, 2, 3], port: 50050 };
    assert_eq!(after_bind(tried, true, &config), Allocation::Done(Address::SocketAddress(tried)));
}

#[test]
fn socket_address_port_and_host() {
    let socket = SocketAddress::V4 { ip: [1, 2, 3, 4], port: 5 };
    assert_eq!(socket.port(), 5);
    assert_eq!(socket.with_port(6), SocketAddress::V4 { ip: [1, 2, 3, 4], port: 6 });
    assert!(socket.is_portable());
    let scoped = SocketAddress::V6 { ip: [1; 16], port: 7, flowinfo: 0, scope_id: 1 };
    assert_eq!(scoped.port(), 7);
    assert_eq!(
        scoped.with_port(8),
        SocketAddress::V6 { ip: [1; 16], port: 8, flowinfo: 0, scope_id: 1 }
    );
    assert!(!scoped.is_portable());
    assert!(!SocketAddress::V6 { ip: [1; 16], port: 7, flowinfo: 1, scope_id: 0 }.is_portable());
    assert!(SocketAddress::V6 { ip: [1; 16], port: 7, flowinfo: 0, scope_id: 0 }.is_portable());
}

#[test]
fn address_clone_is_equal() {
    for address in [
        Address::unspecified(),
        Address::SocketAddress(SocketAddress::V6 { ip: [3; 16], port: 1, flowinfo: 2, scope_id: 3 }),
        Address::DomainAddress(String::from("clone.example"), 4),
    ] {
        assert_eq!(address.clone(), address);
    }
}
