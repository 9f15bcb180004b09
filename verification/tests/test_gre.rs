use scarust::protocols::erspan::erspan;
use scarust::protocols::erspan::ErspanType;
use scarust::protocols::ether::ether;
use scarust::protocols::gre::Gre;
use scarust::protocols::ip::Ip;
use scarust::Layer;
use scarust::Value;

#[test]
fn decode_gre_first_test() {
    let packet = "52540072a57f6cab051f0c7408004500005b00004000fa2f57ee0a000a010a000a85100088be7e088837100100010000000054b20307eeed6cab051f0c74080045000029250e000039116cb059bb82400a000a0b2703e1f60015fab0ee1c108eee4ece4a36cd840096";
    let packet_bytes = &hex::decode(packet).unwrap();
    let x = ether::new().decode(&packet_bytes);
    println!("decode result: {:02x?}", &x);
    assert_eq!(x.is_some(), true);
    let (x, _len) = x.unwrap();
    let gre = x.get_layer(Gre::new());
    assert_eq!(gre.is_some(), true);
    let gre = gre.unwrap();
    assert_eq!(gre.version, Value::Fixed(0));
    assert_eq!(gre.seqnum_present, Value::Fixed(true));
    assert_eq!(gre.sequence_number, Value::Fixed(2114488375));
}

#[test]
fn encode_erspan_version() {
    let x1 = ether::new() / Ip::new() / Gre::new() / erspan::new().version(ErspanType::Type2);
    let x2 = ether::new() / Ip::new() / Gre::new() / erspan::new().version(ErspanType::from_code(1));

    println!("x1 result: {:02x?}", &x1);
    println!("x2 result: {:02x?}", &x2);
    assert_eq!(x1.g(erspan::new()).version, x2.g(erspan::new()).version);
}
