use scarust::protocols::arp::Arp;
use scarust::protocols::bootp::Bootp;
use scarust::protocols::bootp::Dhcp;
use scarust::protocols::erspan::erspan;
use scarust::protocols::erspan::ErspanType;
use scarust::protocols::ether::ether;
use scarust::protocols::geneve::Geneve;
use scarust::protocols::gre::Gre;
use scarust::protocols::icmp::Icmp;
use scarust::protocols::icmp_echo::IcmpEcho;
use scarust::protocols::ip::Ip;
use scarust::protocols::pcap_file::pcapFile;
use scarust::protocols::pcap_file::pcapPacket;
use scarust::protocols::raw::raw;
use scarust::protocols::tcp::Tcp;
use scarust::protocols::udp::Udp;
use scarust::Layer;
use scarust::LayerKind;
use scarust::LayerStack;
use scarust::Value;

fn kinds(stack: &LayerStack) -> Vec<LayerKind> {
    stack.layers.iter().map(|l| l.kind()).collect()
}

fn round_trip(first: LayerKind, bytes: &[u8]) -> LayerStack {
    let (stack, n) = LayerStack::decode_as(first, bytes).unwrap();
    assert_eq!(n, bytes.len());
    assert!(stack.filled);
    let filled = stack.fill();
    assert_eq!(filled.clone().encode(), bytes.to_vec());
    assert_eq!(filled.encode_settled(), bytes.to_vec());
    stack
}

#[test]
fn round_trip_ether_ip_udp_payload() {
    let bytes = hex::decode(
        "ffffffffffff020202020202080045000021002a00004011f3a40a0a0a0a0b0b0b0b04d2003500\
         0d1234 68656c6c6f"
            .replace(' ', ""),
    )
    .unwrap();
    let stack = round_trip(LayerKind::Ether, &bytes);
    assert_eq!(
        kinds(&stack),
        vec![LayerKind::Ether, LayerKind::Ip, LayerKind::Udp, LayerKind::Raw]
    );
    let udp = stack.g(Udp::new());
    assert_eq!(udp.sport, Value::Fixed(1234));
    assert_eq!(udp.dport, Value::Fixed(53));
    assert_eq!(udp.len, Value::Fixed(13));
    assert_eq!(udp.chksum, Value::Fixed(0x1234));
    assert_eq!(stack.g(raw::new()).data, b"hello".to_vec());
}

#[test]
fn round_trip_keeps_lengths_that_do_not_fit() {
    // The length fields say more than the buffer holds: they come back as read.
    let bytes = hex::decode("45000fff0001000040117cce7f0000017f000001003500350fff0000").unwrap();
    let stack = round_trip(LayerKind::Ip, &bytes);
    assert_eq!(stack.g(Ip::new()).len, Value::Fixed(0x0fff));
    assert_eq!(stack.g(Udp::new()).len, Value::Fixed(0x0fff));
}

#[test]
fn round_trip_vlan_tcp() {
    let bytes = hex::decode(
        "4141414141414242424242428100a0210800450000280001000040067ccd7f0000017f000001\
         0014005000000000000000005002200091 7c0000"
            .replace(' ', ""),
    )
    .unwrap();
    let stack = round_trip(LayerKind::Ether, &bytes);
    assert_eq!(
        kinds(&stack),
        vec![LayerKind::Ether, LayerKind::Dot1Q, LayerKind::Ip, LayerKind::Tcp]
    );
    let tag = stack.g(scarust::protocols::dot1q::dot1Q::new());
    assert_eq!(tag.prio, Value::Fixed(5));
    assert_eq!(tag.id, Value::Fixed(0));
    assert_eq!(tag.vlan, Value::Fixed(0x021));
    let tcp = stack.g(Tcp::new());
    assert_eq!(tcp.dataofs, Value::Fixed(5));
    assert_eq!(tcp.reserved, Value::Fixed(0));
    assert_eq!(tcp.flags, Value::Fixed(2));
    assert_eq!(tcp.window, Value::Fixed(8192));
    assert_eq!(tcp.chksum, Value::Fixed(0x917c));
}

#[test]
fn round_trip_arp_of_unusual_lengths() {
    let bytes: Vec<u8> = vec![
        0x01, 0x02, 0x03, 0x04, 0x05, 0x06, 0x02, 0x02, 0x02, 0x02, 0x02, 0x02, 0x08, 0x06, 0x00,
        0x01, 0x08, 0x00, 0x04, 0x06, 0x00, 0x01, 0x00, 0x00, 0x00, 0x00, 0x00, 0x00, 0x01, 0x01,
        0x01, 0x01, 0xff, 0xff, 0xff, 0xff, 0xff, 0xff, 0x02, 0x02, 0x02, 0x02,
    ];
    let stack = round_trip(LayerKind::Ether, &bytes);
    assert_eq!(kinds(&stack), vec![LayerKind::Ether, LayerKind::Arp]);
    let arp = stack.g(Arp::new());
    assert_eq!(arp.hwlen, Value::Fixed(4));
    assert_eq!(arp.plen, Value::Fixed(6));
}

#[test]
fn round_trip_arp_of_usual_lengths() {
    let bytes: Vec<u8> = vec![
        0x01, 0x02, 0x03, 0x04, 0x05, 0x06, 0x02, 0x02, 0x02, 0x02, 0x02, 0x02, 0x08, 0x06, 0x00,
        0x01, 0x08, 0x00, 0x06, 0x04, 0x00, 0x01, 0x00, 0xa0, 0x00, 0xa0, 0xb0, 0x0c, 0x01, 0x01,
        0x01, 0x01, 0xff, 0xff, 0xff, 0xff, 0xff, 0xff, 0x02, 0x02, 0x02, 0x02, 0xaa, 0xbb,
    ];
    let stack = round_trip(LayerKind::Ether, &bytes);
    assert_eq!(
        kinds(&stack),
        vec![LayerKind::Ether, LayerKind::Arp, LayerKind::Raw]
    );
    assert_eq!(stack.g(raw::new()).data, vec![0xaa, 0xbb]);
}

#[test]
fn round_trip_gre_erspan() {
    let packet = "52540072a57f6cab051f0c7408004500005b00004000fa2f57ee0a000a010a000a85100088be7e088837100100010000000054b20307eeed6cab051f0c74080045000029250e000039116cb059bb82400a000a0b2703e1f60015fab0ee1c108eee4ece4a36cd840096";
    let bytes = hex::decode(packet).unwrap();
    let stack = round_trip(LayerKind::Ether, &bytes);
    assert_eq!(
        kinds(&stack),
        vec![
            LayerKind::Ether,
            LayerKind::Ip,
            LayerKind::Gre,
            LayerKind::Erspan,
            LayerKind::Raw
        ]
    );
    let gre = stack.g(Gre::new());
    assert_eq!(gre.chksum_present, Value::Fixed(false));
    assert_eq!(gre.routing_present, Value::Fixed(false));
    assert_eq!(gre.key_present, Value::Fixed(false));
    assert_eq!(gre.seqnum_present, Value::Fixed(true));
    assert_eq!(gre.acknum_present, Value::Fixed(false));
    assert_eq!(gre.proto, Value::Fixed(0x88be));
    assert_eq!(gre.key, Value::Fixed(0));
    let span = stack.g(erspan::new());
    assert_eq!(span.version, Value::Fixed(ErspanType::Type2));
    assert_eq!(span.vlan, Value::Fixed(1));
    assert_eq!(span.cos, Value::Fixed(0));
    assert_eq!(span.encap_type, Value::Fixed(0));
    assert_eq!(span.truncated, Value::Fixed(false));
    assert_eq!(span.session_id, Value::Fixed(1));
    assert_eq!(span.port_index, Value::Fixed(0));
    assert_eq!(span.reserved1, Value::Fixed(0));
}

#[test]
fn round_trip_gre_with_all_fields() {
    // C, K, S and A set: checksum and reserved word, key, sequence, acknowledgement.
    let bytes = hex::decode("b0810800aaaa0000000000070000000900000003ff").unwrap();
    let stack = round_trip(LayerKind::Gre, &bytes);
    let gre = stack.g(Gre::new());
    assert_eq!(gre.chksum_present, Value::Fixed(true));
    assert_eq!(gre.routing_present, Value::Fixed(false));
    assert_eq!(gre.key_present, Value::Fixed(true));
    assert_eq!(gre.seqnum_present, Value::Fixed(true));
    assert_eq!(gre.strict_source_route, Value::Fixed(false));
    assert_eq!(gre.recursion_control, Value::Fixed(0));
    assert_eq!(gre.acknum_present, Value::Fixed(true));
    assert_eq!(gre.flags, Value::Fixed(0));
    assert_eq!(gre.version, Value::Fixed(1));
    assert_eq!(gre.chksum, Value::Fixed(0xaaaa));
    assert_eq!(gre.reserved1, Value::Fixed(0));
    assert_eq!(gre.ignored_chksum, Value::Fixed(0));
    assert_eq!(gre.routing_offset, Value::Fixed(0));
    assert_eq!(gre.key, Value::Fixed(7));
    assert_eq!(gre.sequence_number, Value::Fixed(9));
    assert_eq!(gre.ack_number, Value::Fixed(3));
    // 0x0800 selects IP, whose header the one byte left cannot hold.
    assert_eq!(kinds(&stack), vec![LayerKind::Gre, LayerKind::Raw]);
}

#[test]
fn round_trip_geneve_in_udp() {
    let inner = ether::new() / Ip::new().id(7) / Udp::new().dport(234) / "testing".to_string();
    let x = ether::new() / Ip::new().id(9) / Udp::new() / Geneve::new().vni(0x223344) / inner;
    let bytes = x.fill().encode();
    let stack = round_trip(LayerKind::Ether, &bytes);
    assert_eq!(
        kinds(&stack),
        vec![
            LayerKind::Ether,
            LayerKind::Ip,
            LayerKind::Udp,
            LayerKind::Geneve,
            LayerKind::Ether,
            LayerKind::Ip,
            LayerKind::Udp,
            LayerKind::Raw
        ]
    );
    let outer = stack.g(Udp::new());
    assert_eq!(outer.sport, Value::Fixed(6081));
    assert_eq!(outer.dport, Value::Fixed(6081));
    let g = stack.g(Geneve::new());
    assert_eq!(g.vni, Value::Fixed(0x223344));
    assert_eq!(g.protocol, Value::Fixed(0x6558));
    assert_eq!(g.reserved_u8_2, Value::Fixed(0));
    let innermost = stack.get_innermost_layer(Udp::new()).unwrap();
    assert_eq!(innermost.dport, Value::Fixed(234));
    assert_eq!(innermost.sport, Value::Fixed(0xffff));
}

#[test]
fn round_trip_icmp_echo() {
    let x = Ip::new().id(3) / Icmp::new() / IcmpEcho::new().identifier(0x1234).sequence(1);
    let bytes = x.fill().encode();
    assert_eq!(bytes.len(), 28);
    // type 8 for an echo request, and the checksum of the four header bytes
    assert_eq!(&bytes[20..24], &[0x08, 0x00, 0xf7, 0xff]);
    assert_eq!(&bytes[24..], &[0x12, 0x34, 0x00, 0x01]);
    let stack = round_trip(LayerKind::Ip, &bytes);
    assert_eq!(
        kinds(&stack),
        vec![LayerKind::Ip, LayerKind::Icmp, LayerKind::IcmpEcho]
    );
}

#[test]
fn round_trip_bootp() {
    let mut bytes: Vec<u8> = vec![0; 300];
    bytes[0] = 2;
    bytes[4..8].copy_from_slice(&[0xde, 0xad, 0xbe, 0xef]);
    bytes[28..34].copy_from_slice(&[1, 2, 3, 4, 5, 6]);
    bytes[236..240].copy_from_slice(&[0, 0x12, 0x34, 0x56]);
    let stack = round_trip(LayerKind::Bootp, &bytes);
    assert_eq!(kinds(&stack), vec![LayerKind::Bootp, LayerKind::Raw]);
    let b = stack.g(Bootp::new());
    assert_eq!(b.op, Value::Fixed(2));
    assert_eq!(b.xid, Value::Fixed(0xdeadbeef));
    assert_eq!(b.cookie, Value::Fixed(0x123456));
    assert_eq!(stack.g(raw::new()).data.len(), 60);
    // Without the vendor area the message is too short.
    assert!(LayerStack::decode_as(LayerKind::Bootp, &bytes[..299]).is_none());
}

#[test]
fn dhcp_options_are_read_and_not_written() {
    let mut bytes: Vec<u8> = vec![0; 240];
    bytes[236..240].copy_from_slice(&[0x63, 0x82, 0x53, 0x63]);
    // message type, padding, a router option of four bytes, the end, and one byte more
    bytes.extend_from_slice(&[53, 1, 5, 0, 3, 4, 10, 0, 0, 1, 255, 0x99]);
    let (stack, n) = LayerStack::decode_as(LayerKind::Bootp, &bytes).unwrap();
    assert_eq!(n, bytes.len());
    assert_eq!(
        kinds(&stack),
        vec![LayerKind::Bootp, LayerKind::Dhcp, LayerKind::Raw]
    );
    let d = stack.g(Dhcp::new());
    let codes: Vec<u8> = d.options.iter().map(|o| o.code()).collect();
    assert_eq!(codes, vec![53, 0, 3, 255]);
    assert_eq!(stack.g(raw::new()).data, vec![0x99]);
    let encoded = stack.fill().encode();
    assert_eq!(encoded.len(), 241);
    assert_eq!(&encoded[..240], &bytes[..240]);
    assert_eq!(encoded[240], 0x99);
}

#[test]
fn dhcp_stops_before_what_it_cannot_read() {
    // an option whose content is cut short, and a number that no option has
    let (cut, n) = LayerStack::decode_as(LayerKind::Dhcp, &[53, 1, 5, 3, 4, 10]).unwrap();
    assert_eq!(n, 6);
    assert_eq!(kinds(&cut), vec![LayerKind::Dhcp, LayerKind::Raw]);
    assert_eq!(cut.g(Dhcp::new()).options.len(), 1);
    assert_eq!(cut.g(raw::new()).data, vec![3, 4, 10]);
    let (unknown, _) = LayerStack::decode_as(LayerKind::Dhcp, &[200, 1, 5]).unwrap();
    assert_eq!(unknown.g(Dhcp::new()).options.len(), 0);
    assert_eq!(unknown.g(raw::new()).data, vec![200, 1, 5]);
    let (empty, n) = LayerStack::decode_as(LayerKind::Dhcp, &[]).unwrap();
    assert_eq!(n, 0);
    assert_eq!(kinds(&empty), vec![LayerKind::Dhcp]);
}

fn capture(little: bool) -> Vec<u8> {
    let w32 = |v: u32| if little { v.to_le_bytes() } else { v.to_be_bytes() };
    let w16 = |v: u16| if little { v.to_le_bytes() } else { v.to_be_bytes() };
    let mut f: Vec<u8> = Vec::new();
    f.extend_from_slice(&w32(0xa1b2c3d4));
    f.extend_from_slice(&w16(2));
    f.extend_from_slice(&w16(4));
    f.extend_from_slice(&w32(0xffff_fff0));
    f.extend_from_slice(&w32(0));
    f.extend_from_slice(&w32(65535));
    f.extend_from_slice(&w32(1));
    for (i, data) in [&b"abc"[..], &b""[..], &b"defgh"[..]].iter().enumerate() {
        f.extend_from_slice(&w32(100 + i as u32));
        f.extend_from_slice(&w32(7));
        f.extend_from_slice(&w32(data.len() as u32));
        f.extend_from_slice(&w32(1500));
        f.extend_from_slice(data);
    }
    f
}

#[test]
fn round_trip_capture_files_of_both_byte_orders() {
    for little in [true, false] {
        let bytes = capture(little);
        let stack = round_trip(LayerKind::PcapFile, &bytes);
        assert_eq!(kinds(&stack), vec![LayerKind::PcapFile]);
        let f = stack.g(pcapFile::new());
        let magic: u32 = if little { 0xd4c3b2a1 } else { 0xa1b2c3d4 };
        assert_eq!(f.magic_number, Value::Fixed(magic));
        assert_eq!(f.d.version_major, Value::Fixed(2));
        assert_eq!(f.d.version_minor, Value::Fixed(4));
        assert_eq!(f.d.thiszone, Value::Fixed(-16));
        assert_eq!(f.d.snaplen, Value::Fixed(65535));
        assert_eq!(f.d.network, Value::Fixed(1));
        assert_eq!(f.d.packets.len(), 3);
        assert_eq!(f.d.packets[0].data, b"abc".to_vec());
        assert_eq!(f.d.packets[1].data, Vec::<u8>::new());
        assert_eq!(f.d.packets[2].ts_sec, Value::Fixed(102));
        assert_eq!(f.d.packets[2].orig_len, Value::Fixed(1500));
        assert_eq!(f.d.packets[2].data, b"defgh".to_vec());
    }
}

#[test]
fn a_record_cut_short_ends_the_records() {
    let mut bytes = capture(true);
    bytes.truncate(bytes.len() - 2);
    let stack = round_trip(LayerKind::PcapFile, &bytes);
    assert_eq!(kinds(&stack), vec![LayerKind::PcapFile, LayerKind::Raw]);
    assert_eq!(stack.g(pcapFile::new()).d.packets.len(), 2);
    assert_eq!(stack.g(raw::new()).data.len(), 16 + 3);
}

#[test]
fn what_is_no_capture_file_is_not_decoded() {
    let mut bytes = capture(true);
    bytes[0] = 0;
    assert!(LayerStack::decode_as(LayerKind::PcapFile, &bytes).is_none());
    assert!(LayerStack::decode_as(LayerKind::PcapFile, &bytes[..20]).is_none());
    assert!(pcapFile::new().decode(&[0xa1, 0xb2]).is_none());
}

#[test]
fn a_packet_record_stops_at_its_end() {
    let mut bytes: Vec<u8> = Vec::new();
    for v in [1u32, 2, 3, 9] {
        bytes.extend_from_slice(&v.to_be_bytes());
    }
    bytes.extend_from_slice(b"xyzrest");
    let (stack, n) = pcapPacket::new().decode(&bytes).unwrap();
    assert_eq!(n, 16 + 3);
    assert_eq!(kinds(&stack), vec![LayerKind::PcapPacket]);
    assert_eq!(stack.g(pcapPacket::new()).data, b"xyz".to_vec());
    assert_eq!(stack.fill().encode(), bytes[..19].to_vec());
}

#[test]
fn a_capture_file_written_from_scratch() {
    let mut pcap = pcapFile::new();
    for _ in 0..3 {
        let p = ether::new() / Ip::new() / Gre::new() / Ip::new() / Udp::new();
        let pp = pcapPacket::new().data(p.encode());
        assert_eq!(pp.incl_len, Value::Fixed(14 + 20 + 4 + 20 + 8));
        assert_eq!(pp.orig_len, Value::Fixed(66));
        pcap.push(pp);
    }
    let bytes = pcap.clone().to_stack().fill().encode();
    assert_eq!(bytes.len(), 24 + 3 * (16 + 66));
    assert_eq!(&bytes[..4], &[0xd4, 0xc3, 0xb2, 0xa1]);
    assert_eq!(&bytes[4..8], &[2, 0, 4, 0]);
    assert_eq!(&bytes[20..24], &[1, 0, 0, 0]);
    assert_eq!(&bytes[32..36], &[66, 0, 0, 0]);
    let back = pcapFile::new().decode(&bytes).unwrap().0;
    assert_eq!(back.g(pcapFile::new()).d.packets.len(), 3);
}
