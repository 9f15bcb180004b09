//! Link-layer and IPv4 addresses.

use crate::codec::u32_bytes;
use crate::codec::u32_of;
use crate::codec::Decode;
use crate::codec::Decoder;
use crate::codec::Encode;
use crate::codec::Encoder;
use crate::codec::Endian;
use crate::value::Field;
use crate::value::RandomSource;
use crate::value::draw;
use crate::value::lemma_drew_more;
use crate::value::low8;
use vstd::prelude::*;
use vstd::string::StrSliceExecFns;

verus! {

/// A 48-bit link-layer address, as its six octets in wire order.
#[derive(Clone, Copy, Debug, PartialEq, Eq)]
pub struct MacAddr {
    pub o1: u8,
    pub o2: u8,
    pub o3: u8,
    pub o4: u8,
    pub o5: u8,
    pub o6: u8,
}

/// A text that is not a link-layer address.
#[derive(Clone, Copy, Debug, PartialEq, Eq)]
pub struct ParseMacAddrError;

/// The octets that the `mac_address` crate reads from a text, or `None` where
/// it rejects the text.
pub uninterp spec fn mac_text_octets(s: Seq<char>) -> Option<Seq<u8>>;

/// `str::parse::<mac_address::MacAddress>()` followed by `bytes()`: the six
/// octets that the crate reads from `s`. The result is the named function of
/// the text; an error of the crate comes back as `None`.
#[verifier::external_body]
fn parse_mac_octets(s: &str) -> (r: Option<[u8; 6]>)
    ensures
        r matches Some(a) ==> mac_text_octets(s@) == Some(a@),
        r is None ==> mac_text_octets(s@) is None,
{
    match s.parse::<mac_address::MacAddress>() {
        Ok(m) => Some(m.bytes()),
        Err(_) => None,
    }
}

impl View for MacAddr {
    type V = MacAddr;

    open spec fn view(&self) -> MacAddr {
        *self
    }
}

impl MacAddr {
    /// The address whose octets are the first six items of `b`.
    pub open spec fn of(b: Seq<u8>) -> MacAddr {
        MacAddr { o1: b[0], o2: b[1], o3: b[2], o4: b[3], o5: b[4], o6: b[5] }
    }

    /// The six octets in wire order.
    pub open spec fn octets(self) -> Seq<u8> {
        seq![self.o1, self.o2, self.o3, self.o4, self.o5, self.o6]
    }

    pub fn new(o1: u8, o2: u8, o3: u8, o4: u8, o5: u8, o6: u8) -> (r: MacAddr)
        ensures
            r == (MacAddr { o1, o2, o3, o4, o5, o6 }),
    {
        MacAddr { o1, o2, o3, o4, o5, o6 }
    }

    /// The address with the six octets of `arg`.
    pub fn from_array(arg: [u8; 6]) -> (r: MacAddr)
        ensures
            r == MacAddr::of(arg@),
    {
        MacAddr::new(arg[0], arg[1], arg[2], arg[3], arg[4], arg[5])
    }

    /// The address with the first six octets of `arg`, or `None` where `arg`
    /// holds fewer than six.
    pub fn from_slice(arg: &[u8]) -> (r: Option<MacAddr>)
        ensures
            r == (if arg@.len() >= 6 {
                Some(MacAddr::of(arg@))
            } else {
                None
            }),
    {
        if arg.len() < 6 {
            None
        } else {
            Some(MacAddr::new(arg[0], arg[1], arg[2], arg[3], arg[4], arg[5]))
        }
    }

    /// The six octets as a vector.
    pub fn bytes(&self) -> (r: Vec<u8>)
        ensures
            r@ == self.octets(),
    {
        let mut r: Vec<u8> = Vec::new();
        r.push(self.o1);
        r.push(self.o2);
        r.push(self.o3);
        r.push(self.o4);
        r.push(self.o5);
        r.push(self.o6);
        assert(r@ =~= self.octets());
        r
    }

    /// The address that a text stands for, as the `mac_address` crate reads
    /// it, or `None` where the crate rejects the text.
    pub open spec fn from_text(s: Seq<char>) -> Option<MacAddr> {
        match mac_text_octets(s) {
            Some(o) => Some(MacAddr::of(o)),
            None => None,
        }
    }

    /// Reads an address from text such as `01:02:03:0a:0b:0c`. The text is
    /// accepted exactly where the `mac_address` crate accepts it.
    pub fn from_str(s: &str) -> (r: Result<MacAddr, ParseMacAddrError>)
        ensures
            r == (match MacAddr::from_text(s@) {
                Some(m) => Ok(m),
                None => Err(ParseMacAddrError),
            }),
    {
        match parse_mac_octets(s) {
            Some(a) => Ok(MacAddr::from_array(a)),
            None => Err(ParseMacAddrError),
        }
    }
}

impl Default for MacAddr {
    fn default() -> (r: MacAddr)
        ensures
            r == (MacAddr { o1: 0, o2: 0, o3: 0, o4: 0, o5: 0, o6: 0 }),
    {
        MacAddr::new(0, 0, 0, 0, 0, 0)
    }
}

impl Field for MacAddr {
    open spec fn default_view() -> MacAddr {
        MacAddr { o1: 0, o2: 0, o3: 0, o4: 0, o5: 0, o6: 0 }
    }

    fn default_value() -> (r: MacAddr) {
        MacAddr::new(0, 0, 0, 0, 0, 0)
    }

    open spec fn draws() -> nat {
        6
    }

    open spec fn of_draws(d: Seq<u32>) -> MacAddr {
        MacAddr {
            o1: low8(d[0]),
            o2: low8(d[1]),
            o3: low8(d[2]),
            o4: low8(d[3]),
            o5: low8(d[4]),
            o6: low8(d[5]),
        }
    }

    fn random<R: RandomSource>(rng: &mut R) -> (r: MacAddr) {
        let ghost d0 = rng.drawn();
        let o1 = u8::random(rng);
        let ghost d1 = rng.drawn();
        let o2 = u8::random(rng);
        let ghost d2 = rng.drawn();
        let o3 = u8::random(rng);
        let ghost d3 = rng.drawn();
        let o4 = u8::random(rng);
        let ghost d4 = rng.drawn();
        let o5 = u8::random(rng);
        let ghost d5 = rng.drawn();
        let o6 = u8::random(rng);
        proof {
            let d6 = rng.drawn();
            lemma_drew_more(d0, d1, d2, 1, 1);
            lemma_drew_more(d0, d2, d3, 2, 1);
            lemma_drew_more(d0, d3, d4, 3, 1);
            lemma_drew_more(d0, d4, d5, 4, 1);
            lemma_drew_more(d0, d5, d6, 5, 1);
        }
        MacAddr::new(o1, o2, o3, o4, o5, o6)
    }

    fn dup(&self) -> (r: MacAddr) {
        *self
    }
}

impl Encode for MacAddr {
    open spec fn encoded(&self, o: Endian) -> Seq<u8> {
        self.octets()
    }

    fn encode<E: Encoder>(&self) -> (r: Vec<u8>) {
        self.bytes()
    }
}

impl Decode for MacAddr {
    open spec fn decoded(o: Endian, buf: Seq<u8>) -> Option<(MacAddr, usize)> {
        if buf.len() >= 6 {
            Some((MacAddr::of(buf), 6usize))
        } else {
            None
        }
    }

    proof fn lemma_decoded_fits(o: Endian, buf: Seq<u8>) {
    }

    fn decode<D: Decoder>(buf: &[u8]) -> (r: Option<(MacAddr, usize)>) {
        match D::decode_vec(buf, 6) {
            Some((mac_vec, count)) => {
                let m = MacAddr::new(
                    mac_vec[0],
                    mac_vec[1],
                    mac_vec[2],
                    mac_vec[3],
                    mac_vec[4],
                    mac_vec[5],
                );
                Some((m, count))
            },
            None => None,
        }
    }
}

/// An IPv4 address, as the 32-bit number whose most significant byte is the
/// first octet.
#[derive(Clone, Copy, Debug, PartialEq, Eq)]
pub struct Ipv4Address {
    pub bits: u32,
}

/// A text that is not an IPv4 address.
#[derive(Clone, Copy, Debug, PartialEq, Eq)]
pub struct ParseIpv4AddressError;

impl View for Ipv4Address {
    type V = Ipv4Address;

    open spec fn view(&self) -> Ipv4Address {
        *self
    }
}

impl Ipv4Address {
    /// The address `o1.o2.o3.o4`.
    pub open spec fn of(o1: u8, o2: u8, o3: u8, o4: u8) -> Ipv4Address {
        Ipv4Address { bits: (o1 * 0x100_0000 + o2 * 0x1_0000 + o3 * 0x100 + o4) as u32 }
    }

    pub fn new(o1: u8, o2: u8, o3: u8, o4: u8) -> (r: Ipv4Address)
        ensures
            r == Ipv4Address::of(o1, o2, o3, o4),
    {
        Ipv4Address {
            bits: (o1 as u32) * 0x100_0000 + (o2 as u32) * 0x1_0000 + (o3 as u32) * 0x100 + (
            o4 as u32),
        }
    }

    /// The address with the four octets of `arg`.
    pub fn from_array(arg: [u8; 4]) -> (r: Ipv4Address)
        ensures
            r == Ipv4Address::of(arg@[0], arg@[1], arg@[2], arg@[3]),
    {
        Ipv4Address::new(arg[0], arg[1], arg[2], arg[3])
    }

    /// The address that is the number `u`.
    pub fn from_u32(u: u32) -> (r: Ipv4Address)
        ensures
            r == (Ipv4Address { bits: u }),
    {
        Ipv4Address { bits: u }
    }

    /// The four octets, first to last.
    pub fn octets(&self) -> (r: [u8; 4])
        ensures
            r@ == seq![
                (self.bits / 0x100_0000) as u8,
                (self.bits / 0x1_0000 % 0x100) as u8,
                (self.bits / 0x100 % 0x100) as u8,
                (self.bits % 0x100) as u8,
            ],
    {
        let r = [
            (self.bits / 0x100_0000) as u8,
            (self.bits / 0x1_0000 % 0x100) as u8,
            (self.bits / 0x100 % 0x100) as u8,
            (self.bits % 0x100) as u8,
        ];
        assert(r@ =~= seq![
            (self.bits / 0x100_0000) as u8,
            (self.bits / 0x1_0000 % 0x100) as u8,
            (self.bits / 0x100 % 0x100) as u8,
            (self.bits % 0x100) as u8,
        ]);
        r
    }
}

/// Whether the byte is an ASCII decimal digit.
pub open spec fn is_digit(b: u8) -> bool {
    48 <= b <= 57
}

/// The octet that a decimal text stands for: one to three digits, without a
/// leading zero unless the text is `0`, and at most 255. `None` for any other
/// text.
pub open spec fn octet_of(t: Seq<u8>) -> Option<u8> {
    if t.len() == 1 && is_digit(t[0]) {
        Some((t[0] - 48) as u8)
    } else if t.len() == 2 && is_digit(t[0]) && is_digit(t[1]) && t[0] != 48 {
        Some(((t[0] - 48) * 10 + (t[1] - 48)) as u8)
    } else if t.len() == 3 && is_digit(t[0]) && is_digit(t[1]) && is_digit(t[2]) && t[0] != 48 && (
    t[0] - 48) * 100 + (t[1] - 48) * 10 + (t[2] - 48) <= 255 {
        Some(((t[0] - 48) * 100 + (t[1] - 48) * 10 + (t[2] - 48)) as u8)
    } else {
        None
    }
}

/// The position of the first dot of `t` at or behind `i`, or the length of
/// `t` where there is none.
pub open spec fn dot_from(t: Seq<u8>, i: int) -> int
    decreases t.len() - i,
{
    if i < 0 || i >= t.len() {
        t.len() as int
    } else if t[i] == 46 {
        i
    } else {
        dot_from(t, i + 1)
    }
}

/// The address that an ASCII text stands for: four octets with a dot between
/// one and the next. `None` for any other text.
pub open spec fn ipv4_of_bytes(t: Seq<u8>) -> Option<Ipv4Address> {
    let first = dot_from(t, 0);
    let second = dot_from(t, first + 1);
    let third = dot_from(t, second + 1);
    if third >= t.len() {
        None
    } else {
        match (
            octet_of(t.subrange(0, first)),
            octet_of(t.subrange(first + 1, second)),
            octet_of(t.subrange(second + 1, third)),
            octet_of(t.subrange(third + 1, t.len() as int)),
        ) {
            (Some(a), Some(b), Some(c), Some(d)) => Some(Ipv4Address::of(a, b, c, d)),
            _ => None,
        }
    }
}

/// The characters of an ASCII text as bytes.
pub open spec fn ascii_bytes(s: Seq<char>) -> Seq<u8> {
    Seq::new(s.len(), |i: int| s[i] as u8)
}

/// The address that a text stands for, such as `192.0.2.1`; `None` for a text
/// that is not ASCII or not of that form.
pub open spec fn ipv4_of_text(s: Seq<char>) -> Option<Ipv4Address> {
    if vstd::utf8::is_ascii_chars(s) {
        ipv4_of_bytes(ascii_bytes(s))
    } else {
        None
    }
}

/// The position of the first dot of `t` at or behind `i`.
fn find_dot(t: &Vec<u8>, i: usize) -> (r: usize)
    requires
        i <= t@.len(),
    ensures
        r == dot_from(t@, i as int),
        i <= r <= t@.len(),
{
    let mut k: usize = i;
    while k < t.len()
        invariant
            i <= k <= t@.len(),
            dot_from(t@, i as int) == dot_from(t@, k as int),
        decreases t@.len() - k,
    {
        if t[k] == 46 {
            return k;
        }
        k += 1;
    }
    k
}

/// The octet that the bytes of `t` from `from` up to `to` stand for.
fn parse_octet(t: &Vec<u8>, from: usize, to: usize) -> (r: Option<u8>)
    requires
        from <= to <= t@.len(),
    ensures
        r == octet_of(t@.subrange(from as int, to as int)),
{
    let ghost part = t@.subrange(from as int, to as int);
    let n: usize = to - from;
    if n == 0 || n > 3 {
        return None;
    }
    assert(part[0] == t@[from as int]);
    let d0: u8 = t[from];
    if d0 < 48 || d0 > 57 {
        return None;
    }
    if n == 1 {
        return Some(d0 - 48);
    }
    assert(part[1] == t@[from + 1]);
    let d1: u8 = t[from + 1];
    if d1 < 48 || d1 > 57 || d0 == 48 {
        return None;
    }
    if n == 2 {
        return Some((d0 - 48) * 10 + (d1 - 48));
    }
    assert(part[2] == t@[from + 2]);
    let d2: u8 = t[from + 2];
    if d2 < 48 || d2 > 57 {
        return None;
    }
    let v: u16 = ((d0 - 48) as u16) * 100 + ((d1 - 48) as u16) * 10 + ((d2 - 48) as u16);
    if v > 255 {
        None
    } else {
        Some(v as u8)
    }
}

/// The address that the ASCII text `t` stands for.
fn parse_ipv4_bytes(t: &Vec<u8>) -> (r: Option<Ipv4Address>)
    ensures
        r == ipv4_of_bytes(t@),
{
    let first = find_dot(t, 0);
    if first >= t.len() {
        assert(dot_from(t@, first + 1) == t@.len());
        assert(dot_from(t@, (t@.len() + 1) as int) == t@.len());
        return None;
    }
    let second = find_dot(t, first + 1);
    if second >= t.len() {
        assert(dot_from(t@, (t@.len() + 1) as int) == t@.len());
        return None;
    }
    let third = find_dot(t, second + 1);
    if third >= t.len() {
        return None;
    }
    let a = parse_octet(t, 0, first);
    let b = parse_octet(t, first + 1, second);
    let c = parse_octet(t, second + 1, third);
    let d = parse_octet(t, third + 1, t.len());
    match (a, b, c, d) {
        (Some(a), Some(b), Some(c), Some(d)) => Some(Ipv4Address::new(a, b, c, d)),
        _ => None,
    }
}

impl Ipv4Address {
    /// Reads an address from text such as `192.0.2.1`: four decimal octets
    /// with dots between them.
    pub fn from_str(s: &str) -> (r: Result<Ipv4Address, ParseIpv4AddressError>)
        ensures
            r == (match ipv4_of_text(s@) {
                Some(a) => Ok(a),
                None => Err(ParseIpv4AddressError),
            }),
    {
        if !s.is_ascii() {
            return Err(ParseIpv4AddressError);
        }
        let n: usize = s.unicode_len();
        let mut t: Vec<u8> = Vec::new();
        let mut i: usize = 0;
        while i < n
            invariant
                s.is_ascii(),
                n == s@.len(),
                i <= n,
                t@ == ascii_bytes(s@).subrange(0, i as int),
            decreases n - i,
        {
            t.push(s.get_ascii(i));
            i += 1;
            assert(t@ =~= ascii_bytes(s@).subrange(0, i as int));
        }
        assert(t@ =~= ascii_bytes(s@));
        match parse_ipv4_bytes(&t) {
            Some(a) => Ok(a),
            None => Err(ParseIpv4AddressError),
        }
    }
}

impl Default for Ipv4Address {
    fn default() -> (r: Ipv4Address)
        ensures
            r.bits == 0,
    {
        Ipv4Address { bits: 0 }
    }
}

impl Field for Ipv4Address {
    open spec fn default_view() -> Ipv4Address {
        Ipv4Address { bits: 0 }
    }

    fn default_value() -> (r: Ipv4Address) {
        Ipv4Address { bits: 0 }
    }

    open spec fn draws() -> nat {
        1
    }

    open spec fn of_draws(d: Seq<u32>) -> Ipv4Address {
        Ipv4Address { bits: d[0] }
    }

    fn random<R: RandomSource>(rng: &mut R) -> (r: Ipv4Address) {
        Ipv4Address { bits: draw(rng) }
    }

    fn dup(&self) -> (r: Ipv4Address) {
        *self
    }
}

impl Encode for Ipv4Address {
    open spec fn encoded(&self, o: Endian) -> Seq<u8> {
        u32_bytes(o, self.bits)
    }

    fn encode<E: Encoder>(&self) -> (r: Vec<u8>) {
        E::encode_u32(self.bits)
    }
}

impl Decode for Ipv4Address {
    open spec fn decoded(o: Endian, buf: Seq<u8>) -> Option<(Ipv4Address, usize)> {
        if buf.len() >= 4 {
            Some((Ipv4Address { bits: u32_of(o, buf) }, 4usize))
        } else {
            None
        }
    }

    proof fn lemma_decoded_fits(o: Endian, buf: Seq<u8>) {
    }

    fn decode<D: Decoder>(buf: &[u8]) -> (r: Option<(Ipv4Address, usize)>) {
        match D::decode_u32(buf) {
            Some((a, i)) => {
                assert(Ipv4Address::decoded(D::dec_order(), buf@) == Some(
                    (Ipv4Address { bits: a }, 4usize),
                ));
                Some((Ipv4Address::from_u32(a), i))
            },
            None => None,
        }
    }
}

} // verus!
