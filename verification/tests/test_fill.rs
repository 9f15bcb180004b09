use scarust::protocols::bootp::Bootp;
use scarust::protocols::dot1q::dot1Q;
use scarust::protocols::ether::ether;
use scarust::protocols::geneve::Geneve;
use scarust::protocols::gre::Gre;
use scarust::protocols::icmp::Icmp;
use scarust::protocols::icmp_echo_reply::IcmpEchoReply;
use scarust::protocols::ip::Ip;
use scarust::protocols::tcp::Tcp;
use scarust::protocols::udp::Udp;
use scarust::value::Field;
use scarust::AnyLayer;
use scarust::CountingRandom;
use scarust::EncodingVecVec;
use scarust::Ipv4Address;
use scarust::Layer;
use scarust::LayerKind;
use scarust::LayerStack;
use scarust::MacAddr;
use scarust::RandomSource;
use scarust::Registry;
use scarust::RegistryName;
use scarust::SeededRandom;
use scarust::ThreadRandom;
use scarust::Thunk;
use scarust::Value;

fn no_field_is_random(stack: &LayerStack) -> bool {
    let text = format!("{:?}", stack);
    !text.contains("Random") && !text.contains("Func")
}

#[test]
fn fill_leaves_nothing_random() {
    let x = ether::new().set_src(Value::Random).set_dst(Value::Random)
        / dot1Q::new().set_vlan(Value::Random)
        / Ip::new().set_src(Value::Random).set_chksum(Value::Random).set_len(Value::Random)
        / Udp::new().set_sport(Value::Random).set_chksum(Value::Random);
    assert!(!no_field_is_random(&x));
    let filled = x.fill();
    assert!(filled.filled);
    assert!(no_field_is_random(&filled));
    assert_eq!(filled.len(), 4);
    // What was not random is as it was.
    assert_eq!(filled.g(Ip::new()).ttl, Value::Fixed(64));
    assert_eq!(filled.g(Ip::new()).dst, Value::Fixed(Ipv4Address::new(127, 0, 0, 1)));
    // The stack that was filled is not changed.
    assert_eq!(x.g(Ip::new()).src, Value::Random);
    assert!(!x.filled);
}

#[test]
fn fill_with_a_given_source_is_repeatable() {
    let x = ether::new().set_src(Value::Random) / Ip::new() / Tcp::new().set_seq(Value::Random);
    let reg = Registry::builtin();
    let a = x.fill_with(&reg, &mut CountingRandom::new(0));
    let b = x.fill_with(&reg, &mut CountingRandom::new(0));
    assert_eq!(a.layers, b.layers);
    assert_eq!(
        a.g(ether::new()).src,
        Value::Fixed(MacAddr::new(1, 2, 3, 4, 5, 6))
    );
    assert_eq!(a.g(Ip::new()).id, Value::Fixed(7));
    assert_eq!(a.g(Tcp::new()).seq, Value::Fixed(8));
    let c = x.fill_with(&reg, &mut SeededRandom::new(42));
    let d = x.fill_with(&reg, &mut SeededRandom::new(42));
    assert_eq!(c.layers, d.layers);
    assert_eq!(c.encode_settled(), d.encode_settled());
}

#[test]
fn seeded_sources_follow_their_seed() {
    let mut a = SeededRandom::new(1);
    let mut b = SeededRandom::new(1);
    let mut c = SeededRandom::new(2);
    let xs: Vec<u32> = (0..8).map(|_| a.next_u32()).collect();
    let ys: Vec<u32> = (0..8).map(|_| b.next_u32()).collect();
    let zs: Vec<u32> = (0..8).map(|_| c.next_u32()).collect();
    assert_eq!(xs, ys);
    assert_ne!(xs, zs);
    assert!(xs.iter().any(|x| *x != xs[0]));
    assert!(xs.iter().any(|x| *x != 1));
}

#[test]
fn the_thread_source_gives_different_numbers() {
    let mut rng = ThreadRandom::new();
    let xs: Vec<u32> = (0..16).map(|_| rng.next_u32()).collect();
    assert!(xs.iter().any(|x| *x != xs[0]));
}

#[test]
fn open_fields_get_what_their_rules_say() {
    let x = ether::new().set_dst(Value::Auto) / Ip::new() / Tcp::new();
    let f = x.fill();
    let eth = f.g(ether::new());
    assert_eq!(eth.dst, Value::Fixed(MacAddr::new(0xff, 0xff, 0xff, 0xff, 0xff, 0xff)));
    assert_eq!(eth.src, Value::Fixed(MacAddr::new(0, 0, 0, 0, 0, 0)));
    assert_eq!(eth.etype, Value::Fixed(0x0800));
    let ip = f.g(Ip::new());
    assert_eq!(ip.version, Value::Fixed(4));
    assert_eq!(ip.tos, Value::Fixed(0));
    assert_eq!(ip.frag, Value::Fixed(0));
    assert_eq!(ip.proto, Value::Fixed(6));
    // Left to the encoder.
    assert_eq!(ip.ihl, Value::Auto);
    assert_eq!(ip.len, Value::Auto);
    assert_eq!(ip.chksum, Value::Auto);
    let tcp = f.g(Tcp::new());
    assert_eq!(tcp.sport, Value::Fixed(0xffff));
    assert_eq!(tcp.dport, Value::Fixed(80));
    assert_eq!(tcp.chksum, Value::Auto);
    assert_eq!(tcp.dataofs, Value::Fixed(5));
}

#[test]
fn next_protocol_fields_follow_the_next_layer() {
    let x = ether::new() / dot1Q::new() / Ip::new() / Gre::new() / ether::new() / "x".to_string();
    let f = x.fill();
    assert_eq!(f.g(ether::new()).etype, Value::Fixed(0x8100));
    assert_eq!(f.g(dot1Q::new()).etype, Value::Fixed(0x0800));
    assert_eq!(f.g(Ip::new()).proto, Value::Fixed(47));
    assert_eq!(f.g(Gre::new()).proto, Value::Fixed(0x6558));
    // A text payload selects nothing: the field gets zero.
    assert_eq!(f.get_innermost_layer(ether::new()).unwrap().etype, Value::Fixed(0));
    let y = Ip::new() / Icmp::new() / IcmpEchoReply::new();
    let g = y.fill();
    assert_eq!(g.g(Ip::new()).proto, Value::Fixed(1));
    assert_eq!(g.g(Icmp::new()).typ, Value::Fixed(0));
    let z = Udp::new() / Bootp::new().set_cookie(Value::Auto) / scarust::protocols::bootp::Dhcp::new();
    let h = z.fill();
    assert_eq!(h.g(Udp::new()).sport, Value::Fixed(68));
    assert_eq!(h.g(Udp::new()).dport, Value::Fixed(68));
    assert_eq!(h.g(Bootp::new()).cookie, Value::Fixed(0x63825363));
    let w = (Udp::new() / Geneve::new()).fill();
    assert_eq!(w.g(Geneve::new()).protocol, Value::Fixed(0));
    assert_eq!(w.g(Udp::new()).dport, Value::Fixed(6081));
    // A fixed field is not touched.
    let v = (ether::new().etype(0x1234) / Ip::new()).fill();
    assert_eq!(v.g(ether::new()).etype, Value::Fixed(0x1234));
}

fn answer() -> u16 {
    4242
}

#[test]
fn computed_fields_are_computed() {
    let x = Ip::new().set_id(Value::Func(Thunk { f: answer })) / Udp::new();
    let f = x.fill();
    assert_eq!(f.g(Ip::new()).id, Value::Fixed(4242));
    assert_eq!(Value::Func(Thunk { f: answer }).value(), 4242);
    let bytes = x.encode();
    assert_eq!(&bytes[4..6], &[0x10, 0x92]);
}

#[test]
fn values_resolve() {
    let auto: Value<u16> = Value::Auto;
    assert!(auto.is_auto());
    assert_eq!(auto.value(), 0);
    assert_eq!(Value::Fixed(7u16).value(), 7);
    assert!(!Value::Fixed(7u16).is_auto());
    assert!(!Value::<u16>::Random.is_auto());
    assert_eq!(Value::<u16>::default(), Value::Auto);
    assert_eq!(Value::<MacAddr>::Auto.value(), MacAddr::new(0, 0, 0, 0, 0, 0));
    let mut rng = CountingRandom::new(0x1_00ff);
    assert_eq!(Value::<u8>::Random.value_with(&mut rng), 0);
    assert_eq!(Value::<u16>::Random.value_with(&mut rng), 0x0101);
    assert_eq!(Value::<u32>::Random.value_with(&mut rng), 0x1_0102);
    assert_eq!(Value::<bool>::Random.value_with(&mut rng), true);
    assert_eq!(Value::<u8>::Random.resolved(&mut rng), Value::Fixed(4));
    assert_eq!(Value::<u8>::Auto.resolved(&mut rng), Value::Auto);
    assert_eq!(Value::Fixed(9u8).resolved(&mut rng), Value::Fixed(9));
    assert_eq!(Value::<u8>::Auto.filled(&mut rng, 3), Value::Fixed(3));
    assert_eq!(Value::Fixed(9u8).filled(&mut rng, 3), Value::Fixed(9));
    assert_eq!(Value::<u8>::Auto.or(5), 5);
    assert_eq!(Value::Fixed(9u8).or(5), 9);
}

#[test]
fn encode_without_fill_takes_open_fields_as_defaults() {
    let x = ether::new() / Ip::new().id(1);
    let bytes = x.encode();
    assert_eq!(bytes.len(), 34);
    assert_eq!(&bytes[..6], &[1, 2, 3, 4, 5, 6]);
    assert_eq!(&bytes[6..14], &[0, 0, 0, 0, 0, 0, 0, 0]);
    assert_eq!(&bytes[14..18], &[0x45, 0, 0, 20]);
    assert_eq!(bytes[23], 0);
}

#[test]
fn a_fixed_checksum_or_length_is_written_as_it_is() {
    let x = Ip::new().id(1).chksum(0xbeef).len(0x1234) / Udp::new().chksum(0xcafe).len(99);
    let bytes = x.fill().encode();
    assert_eq!(&bytes[2..4], &[0x12, 0x34]);
    assert_eq!(&bytes[10..12], &[0xbe, 0xef]);
    assert_eq!(&bytes[24..28], &[0, 99, 0xca, 0xfe]);
}

#[test]
fn a_checksum_without_an_ip_header_is_a_mark() {
    let alone = Udp::new().to_stack().fill().encode();
    assert_eq!(&alone[6..8], &[0xee, 0xea]);
    let behind_other = (ether::new() / Tcp::new()).fill().encode();
    assert_eq!(&behind_other[14 + 16..14 + 18], &[0xdd, 0xdd]);
    let first = Tcp::new().to_stack().fill().encode();
    assert_eq!(&first[16..18], &[0xee, 0xea]);
}

#[test]
fn buffers_of_odd_length_are_summed_one_by_one() {
    let x = Ip::new().id(1) / Udp::new().sport(1).dport(2) / "abc".to_string() / "de".to_string();
    let bytes = x.fill().encode();
    assert_eq!(bytes.len(), 20 + 8 + 5);
    assert_eq!(&bytes[24..26], &[0, 13]);
    // pseudo-header 7f00 0001 7f00 0001 0011 000d, header 0001 0002 000d 0000,
    // payloads 6162 6300 and 6465
    let sum: u32 = 0x7f00 + 0x0001 + 0x7f00 + 0x0001 + 0x0011 + 0x000d + 0x0001 + 0x0002 + 0x000d
        + 0x6162 + 0x6300 + 0x6465;
    let folded = 0xffff - (((sum >> 16) + (sum & 0xffff)) as u16);
    assert_eq!(&bytes[26..28], &folded.to_be_bytes());
}

#[test]
fn composition_appends_in_order() {
    let a = ether::new() / Ip::new();
    let b = Udp::new() / "x".to_string();
    let c = a.clone() / b.clone();
    let kinds: Vec<LayerKind> = c.layers.iter().map(|l| l.kind()).collect();
    assert_eq!(
        kinds,
        vec![LayerKind::Ether, LayerKind::Ip, LayerKind::Udp, LayerKind::Text]
    );
    assert_eq!(&c.layers[..2], &a.layers[..]);
    assert_eq!(&c.layers[2..], &b.layers[..]);
    assert!(!c.filled);
    let joined = a.fill() / b.fill();
    assert!(joined.filled);
    assert!(!(a.fill() / Udp::new()).filled);
    assert_eq!(LayerStack::new().len(), 0);
    assert_eq!(LayerStack::new().join(a.clone()).layers, a.layers);
    assert_eq!(Udp::new().to_stack().layers, vec![AnyLayer::Udp(Udp::new())]);
}

#[test]
fn lookups_tell_first_from_last() {
    let x = ether::new() / Ip::new().id(1) / Udp::new().dport(1) / Ip::new().id(2) / Udp::new().dport(2)
        / Udp::new().dport(3);
    assert_eq!(x.g(Udp::new()).dport, Value::Fixed(1));
    assert_eq!(x.get_layer(Udp::new()).unwrap().dport, Value::Fixed(1));
    assert_eq!(x.get_innermost_layer(Udp::new()).unwrap().dport, Value::Fixed(3));
    assert_eq!(x.get_innermost_layer(Ip::new()).unwrap().id, Value::Fixed(2));
    assert_eq!(x.get_innermost_layer(ether::new()), x.get_layer(ether::new()));
    assert_eq!(x.indices_of(Udp::new()), vec![2, 4, 5]);
    assert_eq!(x.indices_of(Tcp::new()), Vec::<usize>::new());
    let all: Vec<Value<u16>> = x.layers_of(Udp::new()).iter().map(|u| u.dport).collect();
    assert_eq!(all, vec![Value::Fixed(1), Value::Fixed(2), Value::Fixed(3)]);
    assert_eq!(x.items_of(Ip::new()).len(), 2);
    assert!(x.get_layer(Tcp::new()).is_none());
    assert!(x.get_innermost_layer(Tcp::new()).is_none());
    assert_eq!(x.item_at(Ip::new(), 3).unwrap().id, Value::Fixed(2));
    assert!(x.item_at(Ip::new(), 2).is_none());
    assert!(x.item_at(Ip::new(), 6).is_none());
    assert_eq!(x.position_of(LayerKind::Ip), 1);
    assert_eq!(x.position_of(LayerKind::Tcp), 6);
    assert_eq!(x.index(LayerKind::Udp), &AnyLayer::Udp(Udp::new().dport(1)));
    let udp: Udp = LayerStack::gg(x.layers[4].clone());
    assert_eq!(udp.dport, Value::Fixed(2));
    assert!(Ip::new().type_id_is(LayerKind::Ip));
    assert!(!Ip::new().type_id_is(LayerKind::Udp));
}

#[test]
fn a_layer_is_changed_in_place() {
    let mut x = ether::new() / Tcp::new().chksum(1) / Tcp::new().chksum(2);
    if let Some(t) = x.get_layer_mut(Tcp::new()) {
        t.chksum = Value::Auto;
    }
    assert_eq!(x.g(Tcp::new()).chksum, Value::Auto);
    assert_eq!(x.get_innermost_layer(Tcp::new()).unwrap().chksum, Value::Fixed(2));
    assert_eq!(x.len(), 3);
    assert!(x.get_layer_mut(Udp::new()).is_none());
}

#[test]
fn registries_answer_both_ways() {
    let reg = Registry::builtin();
    assert_eq!(
        reg.lookup_by_discriminant(RegistryName::Ethertype, 0x0800),
        Some(LayerKind::Ip)
    );
    assert_eq!(
        reg.lookup_by_discriminant(RegistryName::IanaProto, 17),
        Some(LayerKind::Udp)
    );
    assert_eq!(reg.lookup_by_discriminant(RegistryName::IanaProto, 0x0800), None);
    assert_eq!(reg.lookup_by_discriminant(RegistryName::IcmpType, 8), Some(LayerKind::IcmpEcho));
    assert_eq!(reg.lookup_by_type(RegistryName::Ethertype, LayerKind::Ip), Some(0x0800));
    assert_eq!(reg.lookup_by_type(RegistryName::IanaProto, LayerKind::Ip), Some(4));
    assert_eq!(reg.lookup_by_type(RegistryName::Ethertype, LayerKind::Udp), None);
    assert_eq!(reg.lookup_by_type(RegistryName::UdpDstPort, LayerKind::Bootp), Some(68));
    assert_eq!(reg.next_key(RegistryName::Ethertype, Some(LayerKind::Arp), 0xffff, 0), 0x0806);
    assert_eq!(reg.next_key(RegistryName::Ethertype, Some(LayerKind::Raw), 0xffff, 5), 5);
    assert_eq!(reg.next_key(RegistryName::Ethertype, None, 0xffff, 5), 5);
    let mut own = Registry::new();
    assert_eq!(own.lookup_by_discriminant(RegistryName::Ethertype, 1), None);
    own.register(RegistryName::Ethertype, 1, LayerKind::Ip);
    own.register(RegistryName::Ethertype, 1, LayerKind::Arp);
    own.register(RegistryName::Ethertype, 0x1_0000, LayerKind::Udp);
    own.register(RegistryName::Ethertype, 2, LayerKind::Arp);
    assert_eq!(own.lookup_by_discriminant(RegistryName::Ethertype, 1), Some(LayerKind::Arp));
    assert_eq!(own.lookup_by_type(RegistryName::Ethertype, LayerKind::Arp), Some(2));
    assert_eq!(own.lookup_by_type(RegistryName::Ethertype, LayerKind::Ip), Some(1));
    // A number that the field cannot hold is not used.
    assert_eq!(own.next_key(RegistryName::Ethertype, Some(LayerKind::Udp), 0xffff, 9), 9);
    let stack = ether::new() / Ip::new();
    let f = stack.fill_with(&own, &mut CountingRandom::new(0));
    assert_eq!(f.g(ether::new()).etype, Value::Fixed(1));
    let bytes = vec![0u8; 14 + 28];
    let mut frame = bytes.clone();
    frame[13] = 2;
    let (d, _) = LayerStack::decode_with(&own, LayerKind::Ether, &frame).unwrap();
    assert_eq!(d.layers[1].kind(), LayerKind::Arp);
}

#[test]
fn encoded_buffers_are_read_behind_the_current_layer() {
    let mut enc = EncodingVecVec::new(3);
    assert_eq!(enc.len(), 3);
    assert!(enc.get(2).is_none());
    assert_eq!(enc.wire_len(8), 8);
    enc.push_front(vec![5, 6, 7]);
    assert_eq!(enc.len(), 3);
    assert_eq!(enc.get(2), Some(&vec![5, 6, 7]));
    assert_eq!(enc.index(2), &vec![5, 6, 7]);
    assert!(enc.get(1).is_none());
    assert!(enc.get(3).is_none());
    enc.push_front(vec![1, 2]);
    assert_eq!(enc.index(1), &vec![1, 2]);
    assert_eq!(enc.index(2), &vec![5, 6, 7]);
    assert!(enc.get(0).is_none());
    assert_eq!(enc.wire_len(20), 25);
    assert_eq!(enc.add_to_sum(1), 1 + 0x0102 + 0x0506 + 0x0700);
    assert_eq!(enc.into_buffers(), vec![vec![1, 2], vec![5, 6, 7]]);
}

#[test]
fn a_layer_fills_and_encodes_by_itself() {
    let stack = ether::new() / Ip::new().id(1) / Udp::new().sport(53).dport(53);
    let mut out = LayerStack::new();
    let ip = stack.g(Ip::new());
    ip.fill(&stack, 1, &mut out);
    assert_eq!(out.len(), 1);
    assert_eq!(out.g(Ip::new()).proto, Value::Fixed(17));
    let mut enc = EncodingVecVec::new(3);
    let udp = stack.g(Udp::new()).encode(&stack, 2, &enc);
    assert_eq!(udp, vec![0, 53, 0, 53, 0, 8, 0x01, 0x72]);
    enc.push_front(udp);
    let header = out.g(Ip::new()).encode(&stack, 1, &enc);
    assert_eq!(&header[..4], &[0x45, 0, 0, 28]);
    assert_eq!(&header[10..12], &[0x7c, 0xce]);
    assert_eq!(
        ip.decode_as_raw(&[1, 2]).layers,
        vec![AnyLayer::Raw(scarust::protocols::raw::raw::new().data(vec![1, 2]))]
    );
    assert_eq!(ip.decode_as_raw(&[]).len(), 0);
}

#[test]
fn a_length_that_does_not_fit_its_field_is_cut_to_it() {
    let payload = scarust::protocols::raw::raw::new().data(vec![0x55; 70000]);
    let x = Ip::new().id(1) / Udp::new().sport(1).dport(2) / payload;
    let bytes = x.fill().encode();
    assert_eq!(bytes.len(), 20 + 8 + 70000);
    // 70028 and 70008, each modulo 65536
    assert_eq!(&bytes[2..4], &4492u16.to_be_bytes());
    assert_eq!(&bytes[24..26], &4472u16.to_be_bytes());
}

#[test]
fn a_table_entry_makes_a_layer_at_its_defaults() {
    assert_eq!(AnyLayer::make(LayerKind::Udp), AnyLayer::Udp(Udp::new()));
    assert_eq!(AnyLayer::make(LayerKind::Ip), AnyLayer::Ip(Ip::default()));
    assert_eq!(AnyLayer::make(LayerKind::Text), AnyLayer::Text(String::new()));
    for kind in [
        LayerKind::Ether,
        LayerKind::Dot1Q,
        LayerKind::Arp,
        LayerKind::Tcp,
        LayerKind::Icmp,
        LayerKind::IcmpEcho,
        LayerKind::IcmpEchoReply,
        LayerKind::Gre,
        LayerKind::Erspan,
        LayerKind::Geneve,
        LayerKind::Bootp,
        LayerKind::Dhcp,
        LayerKind::Raw,
        LayerKind::PcapFile,
        LayerKind::PcapFileData,
        LayerKind::PcapPacket,
    ] {
        assert_eq!(AnyLayer::make(kind).kind(), kind);
    }
    let reg = Registry::builtin();
    let made = reg.lookup_by_discriminant(RegistryName::Ethertype, 0x0806).map(AnyLayer::make);
    assert_eq!(made, Some(AnyLayer::Arp(scarust::protocols::arp::Arp::new())));
}

#[test]
fn a_counting_source_counts_and_starts_again() {
    let mut c = CountingRandom::new(u32::MAX - 1);
    assert_eq!(c.next_u32(), u32::MAX);
    assert_eq!(c.next_u32(), 0);
    assert_eq!(c.next_u32(), 1);
}

#[test]
fn random_values_are_made_of_the_numbers_drawn() {
    let mut c = CountingRandom::new(0x0102_03fe);
    assert_eq!(u8::random(&mut c), 0xff);
    assert_eq!(u16::random(&mut c), 0x0400);
    assert_eq!(u32::random(&mut c), 0x0102_0401);
    assert_eq!(bool::random(&mut c), false);
    assert_eq!(bool::random(&mut c), true);
    assert_eq!(i32::random(&mut CountingRandom::new(0x7fff_ffff)), i32::MIN);
    assert_eq!(i32::random(&mut CountingRandom::new(u32::MAX - 1)), -1);
    assert_eq!(i32::random(&mut CountingRandom::new(6)), 7);
    assert_eq!(
        MacAddr::random(&mut CountingRandom::new(0x1fd)),
        MacAddr::new(0xfe, 0xff, 0, 1, 2, 3)
    );
    assert_eq!(
        Ipv4Address::random(&mut CountingRandom::new(0x0a00_0000)),
        Ipv4Address::new(10, 0, 0, 1)
    );
    let name = scarust::protocols::bootp::FixedSizeString::<4>::random(&mut CountingRandom::new(0xfd));
    assert_eq!(name.into_bytes(), vec![0xfe, 0xff, 0, 1]);
    assert_eq!(
        scarust::protocols::erspan::ErspanType::random(&mut CountingRandom::new(0x100)),
        scarust::protocols::erspan::ErspanType::Type2
    );
    assert_eq!(
        scarust::protocols::arp::ArpProtocolAddress::random(&mut CountingRandom::new(0)),
        scarust::protocols::arp::ArpProtocolAddress::IP(Ipv4Address::new(0, 0, 0, 1))
    );
    assert_eq!(
        scarust::protocols::arp::ArpHardwareAddress::random(&mut CountingRandom::new(0)),
        scarust::protocols::arp::ArpHardwareAddress::Ether(MacAddr::new(1, 2, 3, 4, 5, 6))
    );
}

#[test]
fn layers_and_fields_draw_one_after_the_other() {
    let x = ether::new().set_dst(Value::Random).set_src(Value::Random)
        / Ip::new().set_id(Value::Random).set_ttl(Value::Random)
        / Udp::new().set_sport(Value::Random);
    let mut rng = CountingRandom::new(0);
    let r = x.resolve_with(&mut rng);
    // The first layer draws first, and in it the first field.
    assert_eq!(r.g(ether::new()).dst, Value::Fixed(MacAddr::new(1, 2, 3, 4, 5, 6)));
    assert_eq!(r.g(ether::new()).src, Value::Fixed(MacAddr::new(7, 8, 9, 10, 11, 12)));
    assert_eq!(r.g(Ip::new()).id, Value::Fixed(13));
    assert_eq!(r.g(Ip::new()).ttl, Value::Fixed(14));
    assert_eq!(r.g(Udp::new()).sport, Value::Fixed(15));
    // A resolution leaves an open field open.
    assert_eq!(r.g(ether::new()).etype, Value::Auto);
    // Fifteen numbers were drawn, and no more.
    assert_eq!(rng.next_u32(), 16);
    // A fill draws the same numbers for the same fields.
    let f = x.fill_with(&Registry::builtin(), &mut CountingRandom::new(0));
    assert_eq!(f.g(ether::new()).src, Value::Fixed(MacAddr::new(7, 8, 9, 10, 11, 12)));
    assert_eq!(f.g(Udp::new()).sport, Value::Fixed(15));
    assert_eq!(f.g(ether::new()).etype, Value::Fixed(0x0800));
}

#[test]
fn a_stack_without_random_fields_draws_nothing() {
    let x = ether::new() / Ip::new().id(1) / Udp::new();
    let mut rng = CountingRandom::new(40);
    let f = x.fill_with(&Registry::builtin(), &mut rng);
    assert!(f.filled);
    let r = x.resolve_with(&mut rng);
    assert_eq!(r.layers, x.layers);
    assert_eq!(f.encode_with(&mut rng), f.encode_settled());
    assert_eq!(rng.next_u32(), 41);
}

#[test]
fn a_copy_holds_the_same_function() {
    let v: Value<u16> = Value::Func(Thunk { f: answer });
    assert_eq!(v.dup(), v);
    assert_eq!(v.dup().value(), 4242);
    let l = Ip::new().set_id(v);
    let c = l.dup();
    assert_eq!(c.id, Value::Func(Thunk { f: answer }));
    assert_eq!(c, l);
    let any = AnyLayer::Ip(l.clone());
    assert_eq!(any.dup(), any);
    assert_eq!(l.box_clone(), any);
    let f = (c / Udp::new()).fill();
    assert_eq!(f.g(Ip::new()).id, Value::Fixed(4242));
}
