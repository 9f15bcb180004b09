//! Field values from text: decimal numbers, addresses, and records filled from
//! pairs of a field's name and its value as text.

use crate::addr::ascii_bytes;
use crate::addr::ipv4_of_text;
use crate::addr::is_digit;
use crate::addr::Ipv4Address;
use crate::addr::MacAddr;
use crate::value::Value;
use crate::value::ValueParseError;
use vstd::prelude::*;
use vstd::string::StrSliceExecFns;

verus! {

/// A text that is not a number.
#[derive(Clone, Copy, Debug, PartialEq, Eq)]
pub struct ParseNumberError;

/// The number that a text of decimal digits stands for; `None` for the empty
/// text and for a text with anything but digits in it.
pub open spec fn decimal_of(t: Seq<u8>) -> Option<nat>
    decreases t.len(),
{
    if t.len() == 0 || !is_digit(t.last()) {
        None
    } else if t.len() == 1 {
        Some((t.last() - 48) as nat)
    } else {
        match decimal_of(t.drop_last()) {
            Some(v) => Some(v * 10 + (t.last() - 48) as nat),
            None => None,
        }
    }
}

/// The number of at most `max` that a text stands for: the text is ASCII, made
/// of decimal digits only, and its number does not exceed `max`.
pub open spec fn number_of_text(s: Seq<char>, max: nat) -> Option<nat> {
    if vstd::utf8::is_ascii_chars(s) {
        match decimal_of(ascii_bytes(s)) {
            Some(v) => if v <= max {
                Some(v)
            } else {
                None
            },
            None => None,
        }
    } else {
        None
    }
}

/// A text of digits stands for a number at least as large as any of its
/// beginnings does, and every beginning of it is a text of digits.
pub proof fn lemma_decimal_grows(t: Seq<u8>, k: int)
    requires
        1 <= k <= t.len(),
        decimal_of(t) is Some,
    ensures
        decimal_of(t.subrange(0, k)) matches Some(w) && w <= decimal_of(t)->0,
    decreases t.len(),
{
    if k == t.len() {
        assert(t.subrange(0, k) =~= t);
    } else {
        assert(t.drop_last().subrange(0, k) =~= t.subrange(0, k));
        lemma_decimal_grows(t.drop_last(), k);
    }
}

/// Reads a decimal number of at most `max` from ASCII text.
fn parse_decimal(t: &Vec<u8>, max: u32) -> (r: Option<u32>)
    ensures
        match r {
            Some(v) => decimal_of(t@) == Some(v as nat) && v <= max,
            None => !(decimal_of(t@) matches Some(v) && v <= max),
        },
{
    if t.len() == 0 {
        return None;
    }
    let mut acc: u64 = 0;
    let mut i: usize = 0;
    while i < t.len()
        invariant
            i <= t@.len(),
            acc <= max,
            i > 0 ==> decimal_of(t@.subrange(0, i as int)) == Some(acc as nat),
            i == 0 ==> acc == 0,
        decreases t@.len() - i,
    {
        let d: u8 = t[i];
        let ghost prefix = t@.subrange(0, i + 1);
        assert(prefix.last() == d);
        assert(prefix.drop_last() =~= t@.subrange(0, i as int));
        if d < 48 || d > 57 {
            proof {
                if decimal_of(t@) is Some {
                    lemma_decimal_grows(t@, i + 1);
                }
            }
            return None;
        }
        let next: u64 = acc * 10 + (d - 48) as u64;
        if next > max as u64 {
            proof {
                if decimal_of(t@) is Some {
                    lemma_decimal_grows(t@, i + 1);
                }
            }
            return None;
        }
        acc = next;
        i += 1;
    }
    assert(t@.subrange(0, i as int) =~= t@);
    Some(acc as u32)
}

/// Reads a decimal number of at most `max` from text.
pub fn parse_number(s: &str, max: u32) -> (r: Result<u32, ParseNumberError>)
    ensures
        match r {
            Ok(v) => number_of_text(s@, max as nat) == Some(v as nat),
            Err(_) => number_of_text(s@, max as nat) is None,
        },
{
    if !s.is_ascii() {
        return Err(ParseNumberError);
    }
    let n: usize = s.unicode_len();
    let mut t: Vec<u8> = Vec::new();
    let mut i: usize = 0;
    while i < n
        invariant
            s.is_ascii(),
            n == s@.len(),
            i <= n,
            t@ == ascii_bytes(s@).subrange(0, i as int),
        decreases n - i,
    {
        t.push(s.get_ascii(i));
        i += 1;
        assert(t@ =~= ascii_bytes(s@).subrange(0, i as int));
    }
    assert(t@ =~= ascii_bytes(s@));
    match parse_decimal(&t, max) {
        Some(v) => Ok(v),
        None => Err(ParseNumberError),
    }
}

/// A type whose values can be written as text.
pub trait FromText: Sized {
    /// The value that a text stands for, or `None` where it stands for none.
    spec fn of_text(s: Seq<char>) -> Option<Self>;

    /// Reads a value from text.
    fn from_text(s: &str) -> (r: Option<Self>)
        ensures
            r == Self::of_text(s@),
    ;
}

impl FromText for u8 {
    open spec fn of_text(s: Seq<char>) -> Option<u8> {
        match number_of_text(s, 0xff) {
            Some(v) => Some(v as u8),
            None => None,
        }
    }

    fn from_text(s: &str) -> (r: Option<u8>) {
        match parse_number(s, 0xff) {
            Ok(v) => Some(v as u8),
            Err(_) => None,
        }
    }
}

impl FromText for u16 {
    open spec fn of_text(s: Seq<char>) -> Option<u16> {
        match number_of_text(s, 0xffff) {
            Some(v) => Some(v as u16),
            None => None,
        }
    }

    fn from_text(s: &str) -> (r: Option<u16>) {
        match parse_number(s, 0xffff) {
            Ok(v) => Some(v as u16),
            Err(_) => None,
        }
    }
}

impl FromText for u32 {
    open spec fn of_text(s: Seq<char>) -> Option<u32> {
        match number_of_text(s, 0xffff_ffff) {
            Some(v) => Some(v as u32),
            None => None,
        }
    }

    fn from_text(s: &str) -> (r: Option<u32>) {
        match parse_number(s, 0xffff_ffff) {
            Ok(v) => Some(v),
            Err(_) => None,
        }
    }
}

impl FromText for MacAddr {
    open spec fn of_text(s: Seq<char>) -> Option<MacAddr> {
        MacAddr::from_text(s)
    }

    fn from_text(s: &str) -> (r: Option<MacAddr>) {
        match MacAddr::from_str(s) {
            Ok(m) => Some(m),
            Err(_) => None,
        }
    }
}

impl FromText for Ipv4Address {
    open spec fn of_text(s: Seq<char>) -> Option<Ipv4Address> {
        ipv4_of_text(s)
    }

    fn from_text(s: &str) -> (r: Option<Ipv4Address>) {
        match Ipv4Address::from_str(s) {
            Ok(a) => Some(a),
            Err(_) => None,
        }
    }
}

/// Reads a value from text; a text that stands for no value is an error.
pub fn parse_pair<T: FromText>(v: &str) -> (r: Result<T, ValueParseError>)
    ensures
        r == (match T::of_text(v@) {
            Some(val) => Ok(val),
            None => Err(ValueParseError::Error),
        }),
{
    match T::from_text(v) {
        Some(val) => Ok(val),
        None => Err(ValueParseError::Error),
    }
}

/// Reads a value from text, for a field that may be absent.
pub fn parse_pair_as_option<T: FromText>(v: &str) -> (r: Result<Option<T>, ValueParseError>)
    ensures
        r == (match T::of_text(v@) {
            Some(val) => Ok(Some(val)),
            None => Err(ValueParseError::Error),
        }),
{
    match T::from_text(v) {
        Some(val) => Ok(Some(val)),
        None => Err(ValueParseError::Error),
    }
}

/// Reads a value from text, for a field that holds a deferred value: the
/// field is fixed to what was read.
pub fn parse_pair_as_value<T: FromText>(v: &str) -> (r: Result<Value<T>, ValueParseError>)
    ensures
        r == (match T::of_text(v@) {
            Some(val) => Ok(Value::Fixed(val)),
            None => Err(ValueParseError::Error),
        }),
{
    match T::from_text(v) {
        Some(val) => Ok(Value::Fixed(val)),
        None => Err(ValueParseError::Error),
    }
}

/// Reads a value from text, for a field that holds a list: the list of the
/// one value that was read.
pub fn parse_pair_as_vec<T: FromText>(v: &str) -> (r: Result<Vec<T>, ValueParseError>)
    ensures
        match r {
            Ok(list) => T::of_text(v@) == Some(list@[0]) && list@.len() == 1,
            Err(_) => T::of_text(v@) is None,
        },
{
    match T::from_text(v) {
        Some(val) => {
            let mut list: Vec<T> = Vec::new();
            list.push(val);
            Ok(list)
        },
        None => Err(ValueParseError::Error),
    }
}

/// The text given for the field `key` in a list of pairs of a field's name
/// and its value: that of the last pair with the name, as in a map that was
/// filled pair by pair; `None` where no pair has the name.
pub open spec fn text_for(pairs: Seq<(String, String)>, key: Seq<char>) -> Option<Seq<char>>
    decreases pairs.len(),
{
    if pairs.len() == 0 {
        None
    } else if pairs.last().0@ == key {
        Some(pairs.last().1@)
    } else {
        text_for(pairs.drop_last(), key)
    }
}

/// The text given for the field `key` in `pairs`.
pub fn lookup<'a>(pairs: &'a Vec<(String, String)>, key: &str) -> (r: Option<&'a String>)
    ensures
        match r {
            Some(v) => text_for(pairs@, key@) == Some(v@),
            None => text_for(pairs@, key@) is None,
        },
{
    let name: String = key.to_owned();
    let mut i: usize = pairs.len();
    assert(pairs@.subrange(0, i as int) =~= pairs@);
    while i > 0
        invariant
            i <= pairs@.len(),
            name@ == key@,
            text_for(pairs@, key@) == text_for(pairs@.subrange(0, i as int), key@),
        decreases i,
    {
        i -= 1;
        proof {
            let prefix = pairs@.subrange(0, i + 1);
            assert(prefix.last() == pairs@[i as int]);
            assert(prefix.drop_last() =~= pairs@.subrange(0, i as int));
        }
        if pairs[i].0 == name {
            return Some(&pairs[i].1);
        }
    }
    None
}

/// A record that can be made from pairs of a field's name and its value as
/// text. A field without a pair keeps its default.
pub trait FromStringHashmap<T>: Sized {
    /// The record that the pairs stand for, or `None` where the text given
    /// for a field stands for no value of the field.
    spec fn of_pairs(hm: Seq<(String, String)>) -> Option<T>;

    fn from_string_hashmap(hm: Vec<(String, String)>) -> (r: Result<T, ValueParseError>)
        ensures
            r == (match Self::of_pairs(hm@) {
                Some(x) => Ok(x),
                None => Err(ValueParseError::Error),
            }),
    ;
}

/// A record of two numbers, the second of which may be absent.
#[derive(Clone, Copy, Debug, PartialEq, Eq)]
pub struct FunnyTest {
    pub foo: u32,
    pub bar: Option<u32>,
}

impl Default for FunnyTest {
    fn default() -> (r: FunnyTest)
        ensures
            r == (FunnyTest { foo: 0, bar: None }),
    {
        FunnyTest { foo: 0, bar: None }
    }
}

impl FromStringHashmap<FunnyTest> for FunnyTest {
    open spec fn of_pairs(hm: Seq<(String, String)>) -> Option<FunnyTest> {
        let foo = match text_for(hm, "foo"@) {
            Some(t) => u32::of_text(t),
            None => Some(0u32),
        };
        let bar = match text_for(hm, "bar"@) {
            Some(t) => match u32::of_text(t) {
                Some(v) => Some(Some(v)),
                None => None,
            },
            None => Some(None),
        };
        match (foo, bar) {
            (Some(foo), Some(bar)) => Some(FunnyTest { foo, bar }),
            _ => None,
        }
    }

    fn from_string_hashmap(hm: Vec<(String, String)>) -> (r: Result<FunnyTest, ValueParseError>) {
        let mut out = FunnyTest::default();
        match lookup(&hm, "foo") {
            Some(t) => match parse_pair::<u32>(t.as_str()) {
                Ok(v) => {
                    out.foo = v;
                },
                Err(e) => {
                    return Err(e);
                },
            },
            None => {},
        }
        match lookup(&hm, "bar") {
            Some(t) => match parse_pair_as_option::<u32>(t.as_str()) {
                Ok(v) => {
                    out.bar = v;
                },
                Err(e) => {
                    return Err(e);
                },
            },
            None => {},
        }
        Ok(out)
    }
}

/// Makes a value at its default.
pub trait New {
    /// The value that `default` of the type gives.
    fn new() -> (r: Self) where Self: Default
        ensures
            call_ensures(Self::default, (), r),
    ;
}

impl<T: Default> New for T {
    fn new() -> (r: T) {
        T::default()
    }
}

} // verus!
