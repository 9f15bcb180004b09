use scarust::protocols::arp::Arp;
use scarust::protocols::arp::ArpHardwareAddress;
use scarust::protocols::arp::ArpProtocolAddress;
use scarust::protocols::ether::ether;
use scarust::protocols::geneve::Geneve;
use scarust::protocols::ip::Ip;
use scarust::protocols::raw::raw;
use scarust::protocols::tcp::Tcp;
use scarust::protocols::udp::Udp;
use scarust::Ipv4Address;
use scarust::Layer;
use scarust::MacAddr;
use scarust::Value;

fn ip4(s: &str) -> Ipv4Address {
    Ipv4Address::from_str(s).unwrap()
}

#[test]
fn test_multiple_layer_instances() {
    let x = ether::new() / Ip::new() / Udp::new().dport(1111) / Udp::new().dport(2222);
    let udp = x.g(Udp::new());
    // We always return the *first* occurrence
    assert_eq!(udp.dport.value(), 1111);
}

#[test]
fn test_multiple_layer_instances_innermost() {
    let x = ether::new() / Ip::new() / Udp::new().dport(1111) / Udp::new().dport(2222);
    let udp = x.get_innermost_layer(Udp::new());
    assert!(udp.is_some());
    if let Some(udp) = udp {
        assert_eq!(udp.dport.value(), 2222);
    }
}

#[test]
fn encode_arp() {
    let x = ether::new().src(MacAddr::from_str("02:02:02:02:02:02").unwrap())
        / Arp::new()
            .psrc(ArpProtocolAddress::from_str("1.1.1.1").unwrap())
            .pdst(ArpProtocolAddress::from_str("2.2.2.2").unwrap())
            .hwdst(ArpHardwareAddress::from_str("ff:ff:ff:ff:ff:ff").unwrap());
    println!("Initial: {:02x?}", &x);
    let filled = x.fill();
    assert_eq!(filled.g(ether::new()).etype, Value::Fixed(0x0806));
    let encoded = filled.clone().encode();
    println!("Filled: {:02x?}", &filled);
    println!("Encoded: {:02x?}", &encoded);
}

#[test]
fn make_random_encode() {
    let x = ether::new().src(MacAddr::from_str("02:02:02:02:02:02").unwrap())
        / Ip::new()
            .src(ip4("10.10.10.10"))
            .dst(ip4("11.11.11.11"))
            .id(42)
            .tos(33)
        / Udp::new();
    println!("Initial: {:02x?}", &x);
    let filled = x.fill();
    assert_eq!(filled.g(Ip::new()).proto, Value::Fixed(17));
    let encoded = filled.clone().encode();
    println!("Filled: {:02x?}", &filled);
    println!("Encoded: {:02x?}", &encoded);
    assert_eq!(encoded[12], 0x08);
    assert_eq!(encoded[13], 0x00);
}

#[test]
fn make_tcp_checksum_tiny() {
    let x = Ip::new().id(1) / Tcp::new().sport(20).dport(80);
    println!("Initial: {:02x?}", &x);
    let filled = x.fill();
    let encoded = filled.clone().encode();
    println!("Filled: {:02x?}", &filled);
    println!("Encoded: {:02x?}", &encoded);
    // IP checksum
    assert_eq!(encoded[10], 0x7c);
    assert_eq!(encoded[11], 0xcd);
    // TCP checksum
    assert_eq!(encoded[36], 0x91);
    assert_eq!(encoded[37], 0x7c);
}

#[test]
fn make_udp_checksum_tiny() {
    let x = Ip::new().id(1) / Udp::new().sport(53).dport(53);
    println!("Initial: {:02x?}", &x);
    let filled = x.fill();
    let encoded = filled.clone().encode();
    println!("Filled: {:02x?}", &filled);
    println!("Encoded: {:02x?}", &encoded);
    // IP checksum
    assert_eq!(encoded[10], 0x7c);
    assert_eq!(encoded[11], 0xce);
    // UDP checksum
    assert_eq!(encoded[26], 0x01);
    assert_eq!(encoded[27], 0x72);
}

#[test]
fn make_udp_checksum_payload() {
    let x = Ip::new().id(1) / Udp::new().sport(1234).dport(1234) / "xxx".to_string();
    println!("Initial: {:02x?}", &x);
    let filled = x.fill();
    let encoded = filled.clone().encode();
    println!("Filled: {:02x?}", &filled);
    println!("Encoded: {:02x?}", &encoded);
    // IP checksum
    assert_eq!(encoded[10], 0x7c);
    assert_eq!(encoded[11], 0xcb);
    // UDP checksum
    assert_eq!(encoded[26], 0x07);
    assert_eq!(encoded[27], 0xb9);
}

#[test]
fn make_geneve() {
    let x = ether::new()
        / Ip::new().src(ip4("192.168.1.1")).dst(ip4("192.168.2.2"))
        / Udp::new()
        / Geneve::new().vni(0x223344)
        / ether::new()
        / Ip::new().src(ip4("192.0.2.1")).dst(ip4("192.0.2.2"))
        / Udp::new().dport(234)
        / "testing".to_string();
    println!("Geneve: {:x?}", &x);
    let encoded = x.clone().encode();
    println!("Encoded Geneve: {:02x?}", &encoded);
    let z = ether::new().decode(&encoded).unwrap().0;
    println!("decode result: {:?}", &z);
}

/// The one's-complement sum of the big-endian words of `data`, with every
/// carry added back in.
fn ones_complement_sum(data: &[u8]) -> u16 {
    let mut sum: u32 = 0;
    let mut i = 0;
    while i < data.len() {
        let hi = data[i] as u32;
        let lo = if i + 1 < data.len() { data[i + 1] as u32 } else { 0 };
        sum += hi * 256 + lo;
        i += 2;
    }
    while sum > 0xffff {
        sum = (sum >> 16) + (sum & 0xffff);
    }
    sum as u16
}

#[test]
fn tcp_checksum_with_a_carry_out_of_the_fold() {
    // The words of the pseudo header, the default header and this payload
    // add up to 0x1ffff: the halves give 0x1_0000, and the carry comes back.
    let x = Ip::new().id(1) / Tcp::new().sport(20).dport(80) / raw::new().data(vec![0x91, 0x7b]);
    let encoded = x.fill().encode();
    assert_eq!(encoded.len(), 42);
    assert_eq!(encoded[36], 0xff);
    assert_eq!(encoded[37], 0xfe);
    // A receiver that sums the pseudo header and the segment, checksum
    // included, finds 0xffff.
    let mut seen: Vec<u8> = Vec::new();
    seen.extend_from_slice(&encoded[12..20]);
    seen.extend_from_slice(&[0, 6, 0, 22]);
    seen.extend_from_slice(&encoded[20..]);
    assert_eq!(ones_complement_sum(&seen), 0xffff);
    // So does a receiver of the IP header.
    assert_eq!(ones_complement_sum(&encoded[..20]), 0xffff);
}

#[test]
fn a_reopened_tcp_checksum_is_computed_as_it_was_captured() {
    // Ethernet, IPv4 from 127.0.0.1 to 127.0.0.1, TCP from port 20 to port
    // 80 with the flag SYN, and two bytes of payload. Both checksums are
    // valid; the words under the TCP checksum add up to 0x1ffff.
    let frame: Vec<u8> = vec![
        0x01, 0x02, 0x03, 0x04, 0x05, 0x06, 0x00, 0x00, 0x00, 0x00, 0x00, 0x00, 0x08, 0x00, //
        0x45, 0x00, 0x00, 0x2a, 0x00, 0x01, 0x00, 0x00, 0x40, 0x06, 0x7c, 0xcb, //
        0x7f, 0x00, 0x00, 0x01, 0x7f, 0x00, 0x00, 0x01, //
        0x00, 0x14, 0x00, 0x50, 0x00, 0x00, 0x00, 0x00, 0x00, 0x00, 0x00, 0x00, //
        0x50, 0x02, 0x20, 0x00, 0xff, 0xfe, 0x00, 0x00, //
        0x91, 0x7b,
    ];
    assert_eq!(ones_complement_sum(&frame[14..34]), 0xffff);
    let built = (ether::new()
        / Ip::new().id(1)
        / Tcp::new().sport(20).dport(80)
        / raw::new().data(vec![0x91, 0x7b]))
    .fill()
    .encode();
    assert_eq!(built, frame);
    let (decoded, taken) = ether::new().decode(&frame).unwrap();
    assert_eq!(taken, frame.len());
    let mut reopened = decoded.clone();
    if let Some(t) = reopened.get_layer_mut(Tcp::new()) {
        t.chksum = Value::Auto;
    }
    assert_eq!(reopened.g(Tcp::new()).chksum, Value::Auto);
    assert_eq!(reopened.fill().encode(), frame);
}
