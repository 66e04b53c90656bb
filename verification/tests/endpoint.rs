use midir_forward::endpoint::{
    endpoint, peer_endpoint, ANY_ADDRESS, EPHEMERAL_PORT, FIXED_RECEIVE_PORT, FIXED_SEND_PORT,
    MULTICAST_GROUP, MULTICAST_PORT,
};
use midir_forward::keep_alive::{keep_alive_datagram, KEEP_ALIVE_INTERVAL_SECS};

#[test]
fn peer_endpoint_joins_address_and_port() {
    assert_eq!(peer_endpoint("192.168.1.20", 5004), Some("192.168.1.20:5004".to_string()));
    assert_eq!(peer_endpoint("localhost", 1), Some("localhost:1".to_string()));
    assert_eq!(peer_endpoint("example.org", 65535), Some("example.org:65535".to_string()));
}

#[test]
fn peer_needs_a_port_of_one_or_more() {
    assert_eq!(peer_endpoint("192.168.1.20", 0), None);
    assert_eq!(peer_endpoint("", 0), None);
}

#[test]
fn port_is_written_in_decimal_without_leading_zeros() {
    assert_eq!(endpoint("h", 0), "h:0");
    assert_eq!(endpoint("h", 7), "h:7");
    assert_eq!(endpoint("h", 9), "h:9");
    assert_eq!(endpoint("h", 10), "h:10");
    assert_eq!(endpoint("h", 99), "h:99");
    assert_eq!(endpoint("h", 100), "h:100");
    assert_eq!(endpoint("h", 1000), "h:1000");
    assert_eq!(endpoint("h", 10000), "h:10000");
    assert_eq!(endpoint("h", 12345), "h:12345");
    assert_eq!(endpoint("h", 60906), "h:60906");
    assert_eq!(endpoint("h", 65535), "h:65535");
}

#[test]
fn endpoint_agrees_with_standard_formatting_for_every_port() {
    for port in 0..=u16::MAX {
        let text = endpoint("10.1.2.3", port);
        assert_eq!(text, format!("10.1.2.3:{}", port));
        assert_eq!(text["10.1.2.3:".len()..].parse::<u16>(), Ok(port));
    }
}

#[test]
fn address_is_taken_as_it_is() {
    assert_eq!(endpoint("", 80), ":80");
    assert_eq!(endpoint("müller.example", 80), "müller.example:80");
}

#[test]
fn multicast_group_endpoint() {
    assert_eq!(MULTICAST_GROUP, "225.0.0.37");
    assert_eq!(MULTICAST_PORT, 21928);
    assert_eq!(endpoint(MULTICAST_GROUP, MULTICAST_PORT), "225.0.0.37:21928");
}

#[test]
fn local_sockets_bind_to_every_interface() {
    assert_eq!(endpoint(ANY_ADDRESS, EPHEMERAL_PORT), "0.0.0.0:0");
    assert_eq!(FIXED_RECEIVE_PORT, 50000);
    assert_eq!(FIXED_SEND_PORT, 50001);
    assert_eq!(endpoint(ANY_ADDRESS, FIXED_RECEIVE_PORT), "0.0.0.0:50000");
    assert_eq!(endpoint(ANY_ADDRESS, FIXED_SEND_PORT), "0.0.0.0:50001");
}

#[test]
fn keep_alive_is_an_empty_datagram_every_ten_seconds() {
    assert_eq!(KEEP_ALIVE_INTERVAL_SECS, 10);
    assert_eq!(keep_alive_datagram(), Vec::<u8>::new());
}
