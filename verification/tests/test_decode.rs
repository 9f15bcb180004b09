use scarust::protocols::arp::Arp;
use scarust::protocols::arp::ArpHardwareAddress;
use scarust::protocols::arp::ArpProtocolAddress;
use scarust::protocols::dot1q::dot1Q;
use scarust::protocols::ether::ether;
use scarust::protocols::ip::Ip;
use scarust::protocols::raw::raw;
use scarust::protocols::udp::Udp;
use scarust::Layer;
use scarust::MacAddr;
use scarust::Value;

fn mac(s: &str) -> Value<MacAddr> {
    Value::Fixed(MacAddr::from_str(s).unwrap())
}

#[test]
fn decode_test_1() {
    let x = ether::new()
        .decode("AAAAAABBBBBB\x08\x00\x4523456789\x111234567890123456789012a".as_bytes())
        .unwrap()
        .0;
    println!("decode result: {:?}", &x);
    assert_eq!(x.indices_of(ether::new()), vec![0]);
    assert_eq!(x.indices_of(Ip::new()), vec![1]);
    assert_eq!(x.indices_of(Udp::new()), vec![2]);
    let eth = x.g(ether::new());
    assert_eq!(eth.dst, mac("41:41:41:41:41:41"));
    assert_eq!(eth.src, mac("42:42:42:42:42:42"));
    assert_eq!(eth.etype, Value::Fixed(0x800));
}

#[test]
fn decode_test_raw() {
    let x = ether::new()
        .decode("AAAAAABBBBBB\x08\x0112345678901234567890123456789012a".as_bytes())
        .unwrap()
        .0;
    println!("decode result: {:?}", &x);
    assert_eq!(x.indices_of(ether::new()), vec![0]);
    assert_eq!(x.indices_of(Ip::new()), Vec::<usize>::new());
    assert_eq!(x.indices_of(raw::new()), vec![1]);
    let eth = x.g(ether::new());
    assert_eq!(eth.dst, mac("41:41:41:41:41:41"));
    assert_eq!(eth.src, mac("42:42:42:42:42:42"));
    assert_eq!(eth.etype, Value::Fixed(0x801));
}

#[test]
fn decode_arp_canonical() {
    let bytes: Vec<u8> = vec![
        0x01, 0x02, 0x03, 0x04, 0x05, 0x06, 0x02, 0x02, 0x02, 0x02, 0x02, 0x02, 0x08, 0x06, 0x00,
        0x01, 0x08, 0x00, 0x06, 0x04, 0x00, 0x01, 0x00, 0xa0, 0x00, 0xa0, 0xb0, 0x0c, 0x01, 0x01,
        0x01, 0x01, 0xff, 0xff, 0xff, 0xff, 0xff, 0xff, 0x02, 0x02, 0x02, 0x02,
    ];
    let x = ether::new().decode(&bytes).unwrap().0;
    println!("decode result: {:?}", &x);
    let arp = x.g(Arp::new());
    assert_eq!(arp.hwsrc, Value::Fixed(ArpHardwareAddress::from_str("00:A0:00:A0:B0:0C").unwrap()));
    assert_eq!(arp.psrc, Value::Fixed(ArpProtocolAddress::from_str("1.1.1.1").unwrap()));
    assert_eq!(arp.hwdst, Value::Fixed(ArpHardwareAddress::from_str("FF:FF:FF:FF:FF:FF").unwrap()));
    assert_eq!(arp.pdst, Value::Fixed(ArpProtocolAddress::from_str("2.2.2.2").unwrap()));
}

#[test]
fn decode_arp_strange() {
    let bytes: Vec<u8> = vec![
        0x01, 0x02, 0x03, 0x04, 0x05, 0x06, 0x02, 0x02, 0x02, 0x02, 0x02, 0x02, 0x08, 0x06, 0x00,
        0x01, 0x08, 0x00, 0x04, 0x06, 0x00, 0x01, 0x00, 0x00, 0x00, 0x00, 0x00, 0x00, 0x01, 0x01,
        0x01, 0x01, 0xff, 0xff, 0xff, 0xff, 0xff, 0xff, 0x02, 0x02, 0x02, 0x02,
    ];
    let x = ether::new().decode(&bytes).unwrap().0;
    println!("decode result: {:?}", &x);
    let arp = x.g(Arp::new());
    assert_eq!(
        arp.hwsrc,
        Value::Fixed(ArpHardwareAddress::Bytes(vec![0, 0, 0, 0]))
    );
    assert_eq!(
        arp.psrc,
        Value::Fixed(ArpProtocolAddress::Bytes(vec![0, 0, 1, 1, 1, 1]))
    );
    assert_eq!(
        arp.hwdst,
        Value::Fixed(ArpHardwareAddress::Bytes(vec![255, 255, 255, 255]))
    );
    assert_eq!(
        arp.pdst,
        Value::Fixed(ArpProtocolAddress::Bytes(vec![255, 255, 2, 2, 2, 2]))
    );
}

#[test]
fn decode_test_dot1q() {
    let x = ether::new()
        .decode(b"AAAAAABBBBBB\x81\x00\x02\x21\x08\x00\x4523456789\x111234567890123456789012a")
        .unwrap()
        .0;
    println!("decode result: {:?}", &x);
    assert_eq!(x.indices_of(ether::new()), vec![0]);
    assert_eq!(x.indices_of(dot1Q::new()), vec![1]);
    assert_eq!(x.indices_of(Ip::new()), vec![2]);
    assert_eq!(x.indices_of(Udp::new()), vec![3]);
    let eth = x.g(ether::new());
    assert_eq!(eth.dst, mac("41:41:41:41:41:41"));
    assert_eq!(eth.src, mac("42:42:42:42:42:42"));
    assert_eq!(eth.etype, Value::Fixed(0x8100));
    let dot1q = x.g(dot1Q::new());
    assert_eq!(dot1q.vlan, Value::Fixed(545));
}
