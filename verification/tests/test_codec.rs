use scarust::addr::ParseIpv4AddressError;
use scarust::addr::ParseMacAddrError;
use scarust::checksum::fold_u32;
use scarust::checksum::get_inet_sum;
use scarust::checksum::update_inet_sum;
use scarust::codec::to_signed;
use scarust::codec::to_unsigned;
use scarust::protocols::arp::ArpHardwareAddress;
use scarust::protocols::arp::ArpProtocolAddress;
use scarust::protocols::bootp::BootpVendorData;
use scarust::protocols::bootp::DhcpMessageType;
use scarust::protocols::bootp::DhcpOption;
use scarust::protocols::bootp::FixedSizeString;
use scarust::protocols::erspan::ErspanType;
use scarust::protocols::ether::ether;
use scarust::protocols::ip::Ip;
use scarust::protocols::udp::Udp;
use scarust::text::parse_number;
use scarust::text::parse_pair;
use scarust::text::parse_pair_as_option;
use scarust::text::parse_pair_as_value;
use scarust::text::parse_pair_as_vec;
use scarust::text::FromStringHashmap;
use scarust::text::FunnyTest;
use scarust::text::New;
use scarust::text::ParseNumberError;
use scarust::BinaryBigEndian;
use scarust::BinaryLittleEndian;
use scarust::Decode;
use scarust::Decoder;
use scarust::Encode;
use scarust::Encoder;
use scarust::Ipv4Address;
use scarust::Layer;
use scarust::LayerKind;
use scarust::LayerStack;
use scarust::MacAddr;
use scarust::Value;
use scarust::ValueParseError;

#[test]
fn big_endian_writes_the_high_byte_first() {
    assert_eq!(BinaryBigEndian::encode_u8(0xab), vec![0xab]);
    assert_eq!(BinaryBigEndian::encode_u16(0x1234), vec![0x12, 0x34]);
    assert_eq!(BinaryBigEndian::encode_u32(0x12345678), vec![0x12, 0x34, 0x56, 0x78]);
    assert_eq!(
        BinaryBigEndian::encode_u64(0x0102030405060708),
        vec![1, 2, 3, 4, 5, 6, 7, 8]
    );
    assert_eq!(BinaryBigEndian::encode_vec(&vec![9, 8]), vec![9, 8]);
    assert_eq!(BinaryBigEndian::decode_u8(&[0xab, 1]), Some((0xab, 1)));
    assert_eq!(BinaryBigEndian::decode_u16(&[0x12, 0x34, 0]), Some((0x1234, 2)));
    assert_eq!(BinaryBigEndian::decode_u32(&[0x12, 0x34, 0x56, 0x78]), Some((0x12345678, 4)));
    assert_eq!(
        BinaryBigEndian::decode_u64(&[1, 2, 3, 4, 5, 6, 7, 8, 9]),
        Some((0x0102030405060708, 8))
    );
    assert_eq!(BinaryBigEndian::decode_vec(&[1, 2, 3], 2), Some((vec![1, 2], 2)));
    assert_eq!(BinaryBigEndian::decode_vec(&[1, 2, 3], 0), Some((vec![], 0)));
}

#[test]
fn little_endian_writes_the_low_byte_first() {
    assert_eq!(BinaryLittleEndian::encode_u8(0xab), vec![0xab]);
    assert_eq!(BinaryLittleEndian::encode_u16(0x1234), vec![0x34, 0x12]);
    assert_eq!(BinaryLittleEndian::encode_u32(0x12345678), vec![0x78, 0x56, 0x34, 0x12]);
    assert_eq!(
        BinaryLittleEndian::encode_u64(0x0102030405060708),
        vec![8, 7, 6, 5, 4, 3, 2, 1]
    );
    assert_eq!(BinaryLittleEndian::encode_vec(&vec![9, 8]), vec![9, 8]);
    assert_eq!(BinaryLittleEndian::decode_u8(&[0xab]), Some((0xab, 1)));
    assert_eq!(BinaryLittleEndian::decode_u16(&[0x34, 0x12]), Some((0x1234, 2)));
    assert_eq!(BinaryLittleEndian::decode_u32(&[0x78, 0x56, 0x34, 0x12]), Some((0x12345678, 4)));
    assert_eq!(
        BinaryLittleEndian::decode_u64(&[8, 7, 6, 5, 4, 3, 2, 1]),
        Some((0x0102030405060708, 8))
    );
    assert_eq!(BinaryLittleEndian::decode_vec(&[1, 2, 3], 3), Some((vec![1, 2, 3], 3)));
}

#[test]
fn short_buffers_are_not_decoded() {
    assert_eq!(BinaryBigEndian::decode_u8(&[]), None);
    assert_eq!(BinaryBigEndian::decode_u16(&[1]), None);
    assert_eq!(BinaryBigEndian::decode_u32(&[1, 2, 3]), None);
    assert_eq!(BinaryBigEndian::decode_u64(&[1, 2, 3, 4, 5, 6, 7]), None);
    assert_eq!(BinaryBigEndian::decode_vec(&[1, 2], 3), None);
    assert_eq!(BinaryLittleEndian::decode_u8(&[]), None);
    assert_eq!(BinaryLittleEndian::decode_u16(&[1]), None);
    assert_eq!(BinaryLittleEndian::decode_u32(&[1, 2, 3]), None);
    assert_eq!(BinaryLittleEndian::decode_u64(&[1, 2, 3, 4, 5, 6, 7]), None);
    assert_eq!(BinaryLittleEndian::decode_vec(&[1, 2], 3), None);
    assert_eq!(MacAddr::decode::<BinaryBigEndian>(&[1, 2, 3, 4, 5]), None);
    assert_eq!(Ipv4Address::decode::<BinaryBigEndian>(&[1, 2, 3]), None);
    assert!(ether::new().decode(&[0; 13]).is_none());
    assert!(Ip::new().decode(&[0x45; 19]).is_none());
    assert!(Udp::new().decode(&[0; 7]).is_none());
    assert!(LayerStack::decode_as(LayerKind::Gre, &[0x20, 0, 8, 0, 1, 2, 3]).is_none());
    assert!(LayerStack::decode_as(LayerKind::Arp, &[0, 1, 8, 0, 6, 4, 0, 1, 9, 9]).is_none());
}

#[test]
fn a_header_too_short_for_the_next_decoder_is_raw() {
    let mut frame = vec![0u8; 14];
    frame[12] = 0x08;
    frame.extend_from_slice(&[0x45, 0, 0]);
    let (stack, n) = ether::new().decode(&frame).unwrap();
    assert_eq!(n, 17);
    let kinds: Vec<LayerKind> = stack.layers.iter().map(|l| l.kind()).collect();
    assert_eq!(kinds, vec![LayerKind::Ether, LayerKind::Raw]);
    let (bare, n) = ether::new().decode(&frame[..14]).unwrap();
    assert_eq!(n, 14);
    assert_eq!(bare.len(), 1);
    let (text, n) = "x".to_string().decode(&[1, 2, 3]).unwrap();
    assert_eq!(n, 3);
    assert_eq!(text.layers[0].kind(), LayerKind::Raw);
    assert_eq!(LayerStack::decode_as(LayerKind::Raw, &[]).unwrap().0.len(), 0);
}

#[test]
fn values_encode_by_their_type() {
    assert_eq!(7u8.encode::<BinaryLittleEndian>(), vec![7]);
    assert_eq!(0x0102u16.encode::<BinaryLittleEndian>(), vec![2, 1]);
    assert_eq!(0x01020304u32.encode::<BinaryBigEndian>(), vec![1, 2, 3, 4]);
    assert_eq!((-2i32).encode::<BinaryBigEndian>(), vec![0xff, 0xff, 0xff, 0xfe]);
    assert_eq!(1u64.encode::<BinaryLittleEndian>(), vec![1, 0, 0, 0, 0, 0, 0, 0]);
    assert_eq!(vec![1u8, 2].encode::<BinaryBigEndian>(), vec![1, 2]);
    assert_eq!(MacAddr::new(1, 2, 3, 4, 5, 6).encode::<BinaryLittleEndian>(), vec![1, 2, 3, 4, 5, 6]);
    assert_eq!(Ipv4Address::new(10, 1, 2, 3).encode::<BinaryBigEndian>(), vec![10, 1, 2, 3]);
    assert_eq!(Ipv4Address::new(10, 1, 2, 3).encode::<BinaryLittleEndian>(), vec![3, 2, 1, 10]);
    assert_eq!(i32::decode::<BinaryBigEndian>(&[0xff, 0xff, 0xff, 0xfe]), Some((-2, 4)));
    assert_eq!(i32::decode::<BinaryLittleEndian>(&[1, 0, 0, 0x80]), Some((i32::MIN + 1, 4)));
    assert_eq!(u64::decode::<BinaryBigEndian>(&[0, 0, 0, 0, 0, 0, 1, 0]), Some((256, 8)));
    assert_eq!(
        MacAddr::decode::<BinaryBigEndian>(&[1, 2, 3, 4, 5, 6, 7]),
        Some((MacAddr::new(1, 2, 3, 4, 5, 6), 6))
    );
    assert_eq!(
        Ipv4Address::decode::<BinaryBigEndian>(&[192, 0, 2, 1]),
        Some((Ipv4Address::new(192, 0, 2, 1), 4))
    );
    assert_eq!(to_signed(0x8000_0000), i32::MIN);
    assert_eq!(to_signed(0x7fff_ffff), i32::MAX);
    assert_eq!(to_unsigned(-1), 0xffff_ffff);
    assert_eq!(to_unsigned(i32::MIN), 0x8000_0000);
    assert_eq!(
        ArpHardwareAddress::Bytes(vec![1, 2]).encode::<BinaryBigEndian>(),
        vec![1, 2]
    );
    assert_eq!(
        ArpProtocolAddress::IP(Ipv4Address::new(1, 2, 3, 4)).encode::<BinaryBigEndian>(),
        vec![1, 2, 3, 4]
    );
    assert_eq!(
        ArpHardwareAddress::decode::<BinaryBigEndian>(&[1, 2, 3, 4, 5, 6]),
        Some((ArpHardwareAddress::Ether(MacAddr::new(1, 2, 3, 4, 5, 6)), 6))
    );
    assert_eq!(
        ArpProtocolAddress::decode::<BinaryBigEndian>(&[1, 2, 3, 4]),
        Some((ArpProtocolAddress::IP(Ipv4Address::new(1, 2, 3, 4)), 4))
    );
    assert_eq!(
        ArpHardwareAddress::from_bytes(vec![1, 2, 3, 4, 5, 6]),
        ArpHardwareAddress::Ether(MacAddr::new(1, 2, 3, 4, 5, 6))
    );
    assert_eq!(
        ArpProtocolAddress::from_bytes(vec![1, 2, 3]),
        ArpProtocolAddress::Bytes(vec![1, 2, 3])
    );
}

#[test]
fn the_running_sum_takes_words_and_pads_an_odd_byte() {
    assert_eq!(get_inet_sum(&[]), 0);
    assert_eq!(get_inet_sum(&[0x12]), 0x1200);
    assert_eq!(get_inet_sum(&[0x12, 0x34]), 0x1234);
    assert_eq!(get_inet_sum(&[0x12, 0x34, 0x56]), 0x1234 + 0x5600);
    assert_eq!(update_inet_sum(5, &[0, 1, 0, 2]), 8);
    assert_eq!(update_inet_sum(0xffff_ffff, &[0, 2]), 1);
    assert_eq!(
        update_inet_sum(get_inet_sum(&[1, 2, 3]), &[4, 5]),
        0x0102 + 0x0300 + 0x0405
    );
    assert_eq!(fold_u32(0), 0xffff);
    assert_eq!(fold_u32(0x18330), 0x7cce);
    assert_eq!(fold_u32(0xffff), 0);
}

#[test]
fn the_fold_adds_the_carry_back_in() {
    // Without a carry the two halves are added and complemented.
    assert_eq!(fold_u32(0x0001_0002), 0xfffc);
    assert_eq!(fold_u32(0x1234_0000), 0xedcb);
    // 0x0001 + 0xffff = 0x1_0000: the carry comes back in as 1.
    assert_eq!(fold_u32(0x0001_ffff), 0xfffe);
    // 0x8000 + 0x8000 = 0x1_0000.
    assert_eq!(fold_u32(0x8000_8000), 0xfffe);
    // 0xffff + 0xffff = 0x1_fffe, folded to 0xffff.
    assert_eq!(fold_u32(0xffff_ffff), 0);
    // 0xffff + 0x0001 = 0x1_0000.
    assert_eq!(fold_u32(0xffff_0001), 0xfffe);
}

#[test]
fn addresses_are_read_from_text() {
    assert_eq!(Ipv4Address::from_str("192.0.2.1"), Ok(Ipv4Address::new(192, 0, 2, 1)));
    assert_eq!(Ipv4Address::from_str("0.0.0.0"), Ok(Ipv4Address::new(0, 0, 0, 0)));
    assert_eq!(
        Ipv4Address::from_str("255.255.255.255"),
        Ok(Ipv4Address::new(255, 255, 255, 255))
    );
    for bad in [
        "", "1.2.3", "1.2.3.4.5", "1.2.3.256", "01.2.3.4", "1..3.4", "1.2.3.4 ", "a.b.c.d", "1.2.3.",
        ".1.2.3", "1.2.3.-4", "1.2.3.४", "1234.1.1.1", "1,2,3,4",
    ] {
        assert_eq!(Ipv4Address::from_str(bad), Err(ParseIpv4AddressError), "{}", bad);
    }
    assert_eq!(Ipv4Address::new(1, 2, 3, 4).bits, 0x01020304);
    assert_eq!(Ipv4Address::new(1, 2, 3, 4).octets(), [1, 2, 3, 4]);
    assert_eq!(Ipv4Address::from_array([9, 8, 7, 6]), Ipv4Address::new(9, 8, 7, 6));
    assert_eq!(Ipv4Address::from_u32(0x7f000001), Ipv4Address::new(127, 0, 0, 1));
    assert_eq!(Ipv4Address::default(), Ipv4Address::new(0, 0, 0, 0));
    assert_eq!(
        MacAddr::from_str("00:a0:00:A0:b0:0c"),
        Ok(MacAddr::new(0, 0xa0, 0, 0xa0, 0xb0, 0x0c))
    );
    assert_eq!(
        MacAddr::from_str("01-02-03-04-05-06"),
        Ok(MacAddr::new(1, 2, 3, 4, 5, 6))
    );
    assert_eq!(MacAddr::from_str("01:02:03:04:05"), Err(ParseMacAddrError));
    assert_eq!(MacAddr::from_str("01:02:03:04:05:zz"), Err(ParseMacAddrError));
    assert_eq!(MacAddr::from_str(""), Err(ParseMacAddrError));
    assert_eq!(MacAddr::from_array([1, 2, 3, 4, 5, 6]), MacAddr::new(1, 2, 3, 4, 5, 6));
    assert_eq!(MacAddr::from_slice(&[1, 2, 3, 4, 5, 6, 7]), Some(MacAddr::new(1, 2, 3, 4, 5, 6)));
    assert_eq!(MacAddr::from_slice(&[1, 2, 3, 4, 5]), None);
    assert_eq!(MacAddr::new(1, 2, 3, 4, 5, 6).bytes(), vec![1, 2, 3, 4, 5, 6]);
    assert_eq!(MacAddr::default(), MacAddr::new(0, 0, 0, 0, 0, 0));
    assert_eq!(
        ArpHardwareAddress::from_str("ff:ff:ff:ff:ff:ff"),
        Ok(ArpHardwareAddress::Ether(MacAddr::new(255, 255, 255, 255, 255, 255)))
    );
    assert_eq!(ArpHardwareAddress::from_str("1.1.1.1"), Err(ValueParseError::Error));
    assert_eq!(
        ArpProtocolAddress::from_str("1.1.1.1"),
        Ok(ArpProtocolAddress::IP(Ipv4Address::new(1, 1, 1, 1)))
    );
    assert_eq!(ArpProtocolAddress::from_str("ff:ff:ff:ff:ff:ff"), Err(ValueParseError::Error));
}

#[test]
fn numbers_and_fields_are_read_from_text() {
    assert_eq!(parse_number("0", 255), Ok(0));
    assert_eq!(parse_number("255", 255), Ok(255));
    assert_eq!(parse_number("007", 255), Ok(7));
    assert_eq!(parse_number("4294967295", u32::MAX), Ok(u32::MAX));
    for bad in ["", "256", "-1", "+1", "1 ", "0x10", "12a", "٣", "4294967296", "99999999999999999999"] {
        assert_eq!(parse_number(bad, if bad == "256" { 255 } else { u32::MAX }), Err(ParseNumberError), "{}", bad);
    }
    assert_eq!(parse_pair::<u8>("42"), Ok(42));
    assert_eq!(parse_pair::<u8>("300"), Err(ValueParseError::Error));
    assert_eq!(parse_pair::<u16>("65535"), Ok(65535));
    assert_eq!(parse_pair::<u16>("65536"), Err(ValueParseError::Error));
    assert_eq!(parse_pair::<u32>("1234"), Ok(1234));
    assert_eq!(parse_pair::<Ipv4Address>("1.2.3.4"), Ok(Ipv4Address::new(1, 2, 3, 4)));
    assert_eq!(parse_pair::<MacAddr>("nothing"), Err(ValueParseError::Error));
    assert_eq!(parse_pair_as_option::<u32>("5"), Ok(Some(5)));
    assert_eq!(parse_pair_as_option::<u32>("x"), Err(ValueParseError::Error));
    assert_eq!(parse_pair_as_value::<u16>("5"), Ok(Value::Fixed(5)));
    assert_eq!(parse_pair_as_value::<u16>(""), Err(ValueParseError::Error));
    assert_eq!(parse_pair_as_vec::<u8>("5"), Ok(vec![5]));
    assert_eq!(parse_pair_as_vec::<u8>("five"), Err(ValueParseError::Error));
}

fn pairs(items: &[(&str, &str)]) -> Vec<(String, String)> {
    items.iter().map(|(k, v)| (k.to_string(), v.to_string())).collect()
}

#[test]
fn a_record_is_made_from_pairs() {
    assert_eq!(
        FunnyTest::from_string_hashmap(pairs(&[("foo", "12"), ("bar", "7")])),
        Ok(FunnyTest { foo: 12, bar: Some(7) })
    );
    assert_eq!(
        FunnyTest::from_string_hashmap(pairs(&[("other", "x")])),
        Ok(FunnyTest { foo: 0, bar: None })
    );
    assert_eq!(
        FunnyTest::from_string_hashmap(pairs(&[("foo", "1"), ("foo", "2")])),
        Ok(FunnyTest { foo: 2, bar: None })
    );
    assert_eq!(
        FunnyTest::from_string_hashmap(pairs(&[("foo", "1"), ("bar", "no")])),
        Err(ValueParseError::Error)
    );
    assert_eq!(
        FunnyTest::from_string_hashmap(pairs(&[("foo", "")])),
        Err(ValueParseError::Error)
    );
    assert_eq!(<FunnyTest as New>::new(), FunnyTest { foo: 0, bar: None });
    assert_eq!(<u32 as New>::new(), 0);
}

#[test]
fn small_types_stand_for_their_numbers() {
    assert_eq!(ErspanType::from_code(0), ErspanType::Type1);
    assert_eq!(ErspanType::from_code(1), ErspanType::Type2);
    assert_eq!(ErspanType::from_code(2), ErspanType::Type3);
    assert_eq!(ErspanType::from_code(9), ErspanType::Unknown(9));
    assert_eq!(ErspanType::Unknown(9).to_code(), 9);
    assert_eq!(ErspanType::Type3.to_code(), 2);
    assert_eq!(ErspanType::default(), ErspanType::Type1);
    assert_eq!(DhcpMessageType::from_repr(1), Some(DhcpMessageType::DhcpDiscover));
    assert_eq!(DhcpMessageType::from_repr(7), Some(DhcpMessageType::DhcpRelease));
    assert_eq!(DhcpMessageType::from_repr(0), None);
    assert_eq!(DhcpMessageType::from_repr(8), None);
    assert_eq!(DhcpMessageType::default(), DhcpMessageType::DhcpDiscover);
    assert_eq!(DhcpOption::from_repr(0), Some(DhcpOption::Pad));
    assert_eq!(DhcpOption::from_repr(255), Some(DhcpOption::End));
    assert_eq!(DhcpOption::from_repr(12), Some(DhcpOption::HostName(String::new())));
    assert_eq!(DhcpOption::from_repr(61), Some(DhcpOption::ClientIdentifier(0, vec![])));
    assert_eq!(DhcpOption::from_repr(62), None);
    assert_eq!(DhcpOption::Router(vec![Ipv4Address::new(1, 1, 1, 1)]).code(), 3);
    assert_eq!(
        DhcpOption::Router(vec![Ipv4Address::new(1, 1, 1, 1)]).dup(),
        DhcpOption::Router(vec![Ipv4Address::new(1, 1, 1, 1)])
    );
    let name = FixedSizeString::<16>::from_str("ab").unwrap();
    let mut padded = vec![b'a', b'b'];
    padded.resize(16, 0);
    assert_eq!(name.into_bytes(), padded);
    assert!(FixedSizeString::<4>::from_str("abcde").is_none());
    assert_eq!(FixedSizeString::<4>::from_bytes(&[1, 2, 3, 4]).unwrap().into_bytes(), vec![1, 2, 3, 4]);
    assert_eq!(FixedSizeString::<2>::from_vec(vec![7, 8]).into_bytes(), vec![7, 8]);
    assert_eq!(BootpVendorData::from_str(""), Some(BootpVendorData::Unset));
    assert!(matches!(BootpVendorData::from_str("x"), Some(BootpVendorData::Data(_))));
    assert_eq!(BootpVendorData::from_str(&"y".repeat(61)), None);
}
