use scarust::protocols::ether::ether;
use scarust::protocols::ip::Ip;
use scarust::protocols::udp::Udp;
use scarust::Layer;
use scarust::LayerKind;
use scarust::Value;

#[test]
fn it_works() {
    let ip = Ip::default();
    println!("{:?}", ip);
    assert_eq!(2 + 2, 4);
}

#[test]
fn make_random() {
    let x = ether::new().set_src(Value::Random) / Ip::new().set_src(Value::Random);
    let filled = x.fill();
    println!("Filled: {:?}", &filled);
}

#[test]
fn show_type_id() {
    let x = ether::new() / Ip::new() / Udp::new();
    let eth = x.g(ether::new());
    let ip = x.g(Ip::new());
    let udp = x.g(Udp::new());

    let eth_type = LayerKind::Ether;
    let ip_type = LayerKind::Ip;
    let udp_type = LayerKind::Udp;

    assert_eq!(eth.get_layer_type_id(), eth_type);
    assert_eq!(x.layers[0].kind(), eth_type);
    assert_eq!(ip.get_layer_type_id(), ip_type);
    assert_eq!(x.layers[1].kind(), ip_type);
    assert_eq!(udp.get_layer_type_id(), udp_type);
    assert_eq!(x.layers[2].kind(), udp_type);
}
