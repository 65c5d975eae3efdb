use socks_uot::address::{Address, SocketAddress};
use socks_uot::hostport::{lookup_text, parse_port, port_to_text, string_to_address, AddressError};

#[test]
fn socket_address_text_is_taken_as_the_caller_read_it() {
    let socket = SocketAddress::V4 { ip: [127, 0, 0, 1], port: 1080 };
    assert_eq!(string_to_address("127.0.0.1:1080", Some(socket)), Ok(Address::SocketAddress(socket)));
    let mut ip = [0u8; 16];
    ip[15] = 1;
    let socket = SocketAddress::V6 { ip, port: 53, flowinfo: 0, scope_id: 0 };
    assert_eq!(string_to_address("[::1]:53", Some(socket)), Ok(Address::SocketAddress(socket)));
}

#[test]
fn host_and_port_are_cut_at_the_last_colon() {
    assert_eq!(
        string_to_address("example.com:80", None),
        Ok(Address::DomainAddress(String::from("example.com"), 80))
    );
    assert_eq!(
        string_to_address("a:b:8080", None),
        Ok(Address::DomainAddress(String::from("a:b"), 8080))
    );
    assert_eq!(string_to_address(":25", None), Ok(Address::DomainAddress(String::from(""), 25)));
    assert_eq!(
        string_to_address("b\u{fc}cher.example:65535", None),
        Ok(Address::DomainAddress(String::from("b\u{fc}cher.example"), 65535))
    );
    assert_eq!(
        string_to_address("localhost:+7", None),
        Ok(Address::DomainAddress(String::from("localhost"), 7))
    );
    assert_eq!(
        string_to_address("localhost:0007", None),
        Ok(Address::DomainAddress(String::from("localhost"), 7))
    );
}

#[test]
fn text_without_colon_has_no_port() {
    assert_eq!(string_to_address("example.com", None), Err(AddressError::MissingPort));
    assert_eq!(string_to_address("", None), Err(AddressError::MissingPort));
    assert_eq!(string_to_address("8080", None), Err(AddressError::MissingPort));
}

#[test]
fn text_after_last_colon_must_be_a_port() {
    for name in [
        "example.com:",
        "example.com:http",
        "example.com:65536",
        "example.com:-1",
        "example.com: 80",
        "example.com:80 ",
        "example.com:8o",
        "example.com:+",
        "example.com:++1",
        "example.com:99999999999999999999",
        "example.com:\u{663}",
        "[::1]:",
    ] {
        assert_eq!(string_to_address(name, None), Err(AddressError::InvalidPort));
    }
}

#[test]
fn parse_port_reads_what_the_standard_parser_reads() {
    let mut samples: Vec<String> = vec![
        "", "+", "-", "0", "00", "+0", "-0", "1", "65535", "65536", "065535", "0000065535",
        "+65535", "+65536", "655350", "4294967296", "4294967297", "18446744073709551616", "12a",
        "a12", " 12", "12 ", "1_000", "0x10", "+-1", "1+", "\u{661}", "９", "6553６",
    ]
    .into_iter()
    .map(String::from)
    .collect();
    for port in 0u32..=70000 {
        if port % 997 == 0 || port < 300 || (65000..65600).contains(&port) {
            samples.push(port.to_string());
        }
    }
    for text in samples {
        assert_eq!(parse_port(&text), text.parse::<u16>().ok());
    }
}

#[test]
fn port_text_is_plain_decimal() {
    assert_eq!(port_to_text(0), "0");
    assert_eq!(port_to_text(7), "7");
    assert_eq!(port_to_text(10), "10");
    assert_eq!(port_to_text(53), "53");
    assert_eq!(port_to_text(1080), "1080");
    assert_eq!(port_to_text(40000), "40000");
    assert_eq!(port_to_text(65535), "65535");
    for port in 0u16..=65535 {
        assert_eq!(port_to_text(port), port.to_string());
    }
}

#[test]
fn every_port_reads_back_from_its_text() {
    for port in 0u16..=65535 {
        assert_eq!(parse_port(&port_to_text(port)), Some(port));
    }
}

#[test]
fn lookup_name_is_host_colon_port() {
    assert_eq!(lookup_text("example.com", 443), "example.com:443");
    assert_eq!(lookup_text("", 0), ":0");
    assert_eq!(lookup_text("b\u{fc}cher.example", 8), format!("{}:{}", "b\u{fc}cher.example", 8));
}

#[test]
fn lookup_name_reads_back_as_host_and_port() {
    for host in ["example.com", "", "with:colon", "::", "b\u{fc}cher"] {
        for port in [0u16, 1, 9, 10, 99, 100, 1080, 65535] {
            assert_eq!(
                string_to_address(&lookup_text(host, port), None),
                Ok(Address::DomainAddress(String::from(host), port))
            );
        }
    }
}
