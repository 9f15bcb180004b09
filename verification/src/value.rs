//! Deferred field values. A field of a protocol layer is a `Value`: left open
//! (`Auto`), to be drawn at random (`Random`), to be computed by a function of
//! the caller's (`Func`), or fixed to a value (`Fixed`).

use crate::codec::signed_of;
use crate::codec::to_signed;
use rand::Rng;
use rand::RngCore;
use rand::SeedableRng;
use vstd::prelude::*;

verus! {

/// A source of random numbers. Nothing is promised of the numbers that it
/// hands out: the library is verified for every number that a source may
/// return. What a source does promise is to keep count: `drawn` is the list
/// of the numbers handed out so far, so that what is made from random
/// numbers can be said in terms of the numbers that were drawn.
pub trait RandomSource {
    /// The numbers handed out so far, oldest first.
    spec fn drawn(&self) -> Seq<u32>;

    /// Hands out the next number.
    fn next_u32(&mut self) -> (r: u32)
        ensures
            final(self).drawn() == old(self).drawn().push(r),
    ;
}

/// `after` is `before` with `n` more numbers drawn behind it.
pub open spec fn drew(before: Seq<u32>, after: Seq<u32>, n: nat) -> bool {
    &&& after.len() == before.len() + n
    &&& after.subrange(0, before.len() as int) == before
}

/// The numbers of `after` that were drawn since `before`.
pub open spec fn fresh(before: Seq<u32>, after: Seq<u32>) -> Seq<u32> {
    after.subrange(before.len() as int, after.len() as int)
}

/// The first `n` of the numbers `d`: the share of whoever draws `n` numbers
/// first.
pub open spec fn share(d: Seq<u32>, n: nat) -> Seq<u32> {
    d.take(n as int)
}

/// The numbers of `d` behind the first `n`: what is left for those who draw
/// later.
pub open spec fn behind(d: Seq<u32>, n: nat) -> Seq<u32> {
    d.skip(n as int)
}

/// Drawing `n` numbers and then `m` more is drawing `n + m`, and the first
/// `n` of them are those that were drawn first.
pub proof fn lemma_drew_more(a: Seq<u32>, b: Seq<u32>, c: Seq<u32>, n: nat, m: nat)
    requires
        drew(a, b, n),
        drew(b, c, m),
    ensures
        drew(a, c, n + m),
        fresh(a, c) == fresh(a, b) + fresh(b, c),
{
    assert(c.subrange(0, a.len() as int) =~= b.subrange(0, a.len() as int));
    assert(fresh(a, c) =~= fresh(a, b) + fresh(b, c));
}

/// Where nothing is drawn, nothing is fresh.
pub proof fn lemma_drew_none(a: Seq<u32>)
    ensures
        drew(a, a, 0),
        fresh(a, a) == Seq::<u32>::empty(),
{
    assert(a.subrange(0, a.len() as int) =~= a);
    assert(fresh(a, a) =~= Seq::<u32>::empty());
}

/// Of the numbers drawn between `a` and `c`, those drawn before `b` come
/// first and those drawn after `b` are the rest.
pub proof fn lemma_drew_first(a: Seq<u32>, b: Seq<u32>, c: Seq<u32>)
    requires
        drew(a, b, (b.len() - a.len()) as nat),
        drew(b, c, (c.len() - b.len()) as nat),
    ensures
        drew(a, c, (c.len() - a.len()) as nat),
        share(fresh(a, c), (b.len() - a.len()) as nat) == fresh(a, b),
        behind(fresh(a, c), (b.len() - a.len()) as nat) == fresh(b, c),
{
    assert(c.subrange(0, a.len() as int) =~= b.subrange(0, a.len() as int));
    assert(fresh(a, c).take(b.len() - a.len()) =~= fresh(a, b));
    assert(fresh(a, c).skip(b.len() - a.len()) =~= fresh(b, c));
}

/// Draws one number from `rng`.
pub fn draw<R: RandomSource>(rng: &mut R) -> (x: u32)
    ensures
        drew(old(rng).drawn(), final(rng).drawn(), 1),
        fresh(old(rng).drawn(), final(rng).drawn()) == seq![x],
{
    let x = rng.next_u32();
    proof {
        let before = old(rng).drawn();
        assert(before.push(x).subrange(0, before.len() as int) =~= before);
        assert(fresh(before, before.push(x)) =~= seq![x]);
    }
    x
}

/// `rand::thread_rng().gen::<u32>()`: one 32-bit number from the generator of
/// the calling thread. The number depends on that generator's state, so
/// nothing is claimed of it.
#[verifier::external_body]
fn thread_rng_u32() -> u32 {
    rand::thread_rng().gen()
}

/// The random source of the calling thread.
pub struct ThreadRandom {
    drawn: Ghost<Seq<u32>>,
}

impl ThreadRandom {
    /// A source that has handed out nothing yet.
    pub fn new() -> (r: ThreadRandom)
        ensures
            r.drawn() == Seq::<u32>::empty(),
    {
        ThreadRandom { drawn: Ghost(Seq::empty()) }
    }
}

impl RandomSource for ThreadRandom {
    closed spec fn drawn(&self) -> Seq<u32> {
        self.drawn@
    }

    fn next_u32(&mut self) -> (r: u32) {
        let r = thread_rng_u32();
        self.drawn = Ghost(self.drawn@.push(r));
        r
    }
}

/// The standard generator of the `rand` crate.
#[verifier::external_type_specification]
#[verifier::external_body]
pub struct ExStdRng(rand::rngs::StdRng);

/// `StdRng::seed_from_u64`: a generator whose stream is fixed by `seed`.
#[verifier::external_body]
fn std_rng_from_seed(seed: u64) -> rand::rngs::StdRng {
    rand::rngs::StdRng::seed_from_u64(seed)
}

/// `RngCore::next_u32` on a `StdRng`: the next number of its stream. The
/// generator is opaque here, so nothing is claimed of the number.
#[verifier::external_body]
fn std_rng_next_u32(rng: &mut rand::rngs::StdRng) -> u32 {
    rng.next_u32()
}

/// A random source that repeats the same stream for the same seed.
pub struct SeededRandom {
    rng: rand::rngs::StdRng,
    drawn: Ghost<Seq<u32>>,
}

impl SeededRandom {
    /// A source for the stream of `seed` that has handed out nothing yet.
    pub fn new(seed: u64) -> (r: SeededRandom)
        ensures
            r.drawn() == Seq::<u32>::empty(),
    {
        SeededRandom { rng: std_rng_from_seed(seed), drawn: Ghost(Seq::empty()) }
    }
}

impl RandomSource for SeededRandom {
    closed spec fn drawn(&self) -> Seq<u32> {
        self.drawn@
    }

    fn next_u32(&mut self) -> (r: u32) {
        let r = std_rng_next_u32(&mut self.rng);
        self.drawn = Ghost(self.drawn@.push(r));
        r
    }
}

/// A source that counts: each number it hands out is the one after the number
/// it handed out last, and after the largest number it starts again at zero.
/// What comes of it can be told beforehand.
pub struct CountingRandom {
    last: u32,
    drawn: Ghost<Seq<u32>>,
}

/// The number after `x`, with zero after the largest.
pub open spec fn after(x: u32) -> u32 {
    if x == u32::MAX {
        0
    } else {
        (x + 1) as u32
    }
}

impl CountingRandom {
    /// The number handed out last, or the one the source was started with.
    pub closed spec fn last(&self) -> u32 {
        self.last
    }

    /// A source whose first number is the one after `start`.
    pub fn new(start: u32) -> (r: CountingRandom)
        ensures
            r.last() == start,
            r.drawn() == Seq::<u32>::empty(),
    {
        CountingRandom { last: start, drawn: Ghost(Seq::empty()) }
    }
}

impl RandomSource for CountingRandom {
    closed spec fn drawn(&self) -> Seq<u32> {
        self.drawn@
    }

    fn next_u32(&mut self) -> (r: u32)
        ensures
            r == after(old(self).last()),
            final(self).last() == r,
    {
        let r = self.last.wrapping_add(1);
        self.last = r;
        self.drawn = Ghost(self.drawn@.push(r));
        r
    }
}

/// A function without arguments that computes a field's value when it is
/// called. The function is the caller's; the verifier does not look into it.
#[verifier::external_body]
#[verifier::reject_recursive_types(T)]
#[derive(Debug, PartialEq, Eq)]
pub struct Thunk<T> {
    pub f: fn() -> T,
}

impl<T> Clone for Thunk<T> {
    fn clone(&self) -> (r: Self)
        ensures
            r == *self,
    {
        *self
    }
}

impl<T> Copy for Thunk<T> {

}

impl<T> Thunk<T> {
    /// Calls the function. What it returns is the caller's business: nothing
    /// is claimed of it. Nor is it known whether the function returns: where
    /// it panics, whatever calls it panics with it, and so do `fill` and
    /// `encode` of a stack that holds it in a field.
    #[verifier::external_body]
    pub(crate) fn call(&self) -> T {
        (self.f)()
    }
}

/// A field value that may still be open.
#[verifier::reject_recursive_types(T)]
#[derive(Clone, Copy, Debug, PartialEq, Eq)]
pub enum Value<T> {
    /// Left open: `fill` and `encode` decide.
    Auto,
    /// To be drawn from a random source.
    Random,
    /// To be computed by calling the function.
    Func(Thunk<T>),
    /// Fixed to this value.
    Fixed(T),
}

/// What a `Value` says, with the function of `Func` left out and the fixed
/// value taken by its view. The function itself is `Value::func`.
pub enum ValueView<V> {
    Auto,
    Random,
    Func,
    Fixed(V),
}

impl<V> ValueView<V> {
    /// The fixed value, or `d` where none is fixed.
    pub open spec fn or(self, d: V) -> V {
        match self {
            ValueView::Fixed(x) => x,
            _ => d,
        }
    }

    /// Neither `Random` nor `Func`: no outside source is needed to give the
    /// field its value.
    pub open spec fn settled(self) -> bool {
        self is Auto || self is Fixed
    }

    /// How many numbers the field takes from a random source, where a random
    /// value of its type takes `n`: `n` for a random field, none for any other.
    pub open spec fn draws(self, n: nat) -> nat {
        if self is Random {
            n
        } else {
            0
        }
    }

    /// Where the field is random, `new` is fixed to `x`.
    pub open spec fn drawn_as(self, x: V, new: ValueView<V>) -> bool {
        self is Random ==> new == ValueView::Fixed(x)
    }

    /// `new` is `self` after resolution: a fixed value stays, an open one stays
    /// open, and a random or computed one has become some fixed value.
    pub open spec fn resolves_to(self, new: ValueView<V>) -> bool {
        match self {
            ValueView::Fixed(x) => new == self,
            ValueView::Auto => new is Auto,
            _ => new is Fixed,
        }
    }

    /// `new` is `self` after a fill whose rule for an open field gives `auto`:
    /// a fixed value stays, an open one becomes `auto`, and a random or
    /// computed one has become some fixed value.
    pub open spec fn fills_to(self, auto: ValueView<V>, new: ValueView<V>) -> bool {
        match self {
            ValueView::Fixed(x) => new == self,
            ValueView::Auto => new == auto,
            _ => new is Fixed,
        }
    }
}

impl<T: View> View for Value<T> {
    type V = ValueView<T::V>;

    open spec fn view(&self) -> ValueView<T::V> {
        match self {
            Value::Auto => ValueView::Auto,
            Value::Random => ValueView::Random,
            Value::Func(_) => ValueView::Func,
            Value::Fixed(x) => ValueView::Fixed(x@),
        }
    }
}

/// The lowest eight bits of a number.
pub open spec fn low8(x: u32) -> u8 {
    (x % 0x100) as u8
}

/// The lowest sixteen bits of a number.
pub open spec fn low16(x: u32) -> u16 {
    (x % 0x1_0000) as u16
}

/// A type that a field of a layer can hold: it has a default, can be drawn
/// from a random source and can be copied.
pub trait Field: Sized + View {
    /// The view of the default value.
    spec fn default_view() -> Self::V;

    /// How many numbers a random value takes from a source.
    spec fn draws() -> nat;

    /// The view of the random value that is made of the numbers `d`, which
    /// are as many as `draws()` says.
    spec fn of_draws(d: Seq<u32>) -> Self::V;

    /// The default value: what an open field counts as where nothing else
    /// decides.
    fn default_value() -> (r: Self)
        ensures
            r@ == Self::default_view(),
    ;

    /// A value drawn from `rng`: the source hands out `draws()` numbers, and
    /// the value is the one made of them.
    fn random<R: RandomSource>(rng: &mut R) -> (r: Self)
        ensures
            drew(old(rng).drawn(), final(rng).drawn(), Self::draws()),
            r@ == Self::of_draws(fresh(old(rng).drawn(), final(rng).drawn())),
    ;

    /// A copy of the value.
    fn dup(&self) -> (r: Self)
        ensures
            r@ == self@,
    ;
}

impl<T> Default for Value<T> {
    fn default() -> (r: Self)
        ensures
            r is Auto,
    {
        Value::Auto
    }
}

impl<T> Value<T> {
    /// The function of a computed field; `None` for any other field.
    pub open spec fn func(self) -> Option<Thunk<T>> {
        match self {
            Value::Func(f) => Some(f),
            _ => None,
        }
    }

    /// Whether the field was left open.
    pub fn is_auto(&self) -> (r: bool)
        ensures
            r == (*self is Auto),
    {
        match self {
            Value::Auto => true,
            _ => false,
        }
    }
}

impl<T: Field> Value<T> {
    /// The value with randomness and computation taken out: `Random` is drawn
    /// from `rng`, `Func` is called, the other two stay as they are.
    pub fn resolved<R: RandomSource>(&self, rng: &mut R) -> (r: Value<T>)
        ensures
            self@.resolves_to(r@),
            r@.settled(),
            drew(old(rng).drawn(), final(rng).drawn(), self@.draws(T::draws())),
            self@.drawn_as(T::of_draws(fresh(old(rng).drawn(), final(rng).drawn())), r@),
            !(self@ is Random) ==> final(rng).drawn() == old(rng).drawn(),
    {
        proof {
            lemma_drew_none(rng.drawn());
        }
        match self {
            Value::Auto => Value::Auto,
            Value::Random => Value::Fixed(T::random(rng)),
            Value::Func(f) => Value::Fixed(f.call()),
            Value::Fixed(x) => Value::Fixed(x.dup()),
        }
    }

    /// The field after a fill whose rule for an open field gives `auto`: a
    /// fixed value stays, an open field becomes `auto`, `Random` is drawn from
    /// `rng` and `Func` is called.
    pub fn filled<R: RandomSource>(&self, rng: &mut R, auto: T) -> (r: Value<T>)
        ensures
            self@.fills_to(ValueView::Fixed(auto@), r@),
            r@ is Fixed,
            drew(old(rng).drawn(), final(rng).drawn(), self@.draws(T::draws())),
            self@.drawn_as(T::of_draws(fresh(old(rng).drawn(), final(rng).drawn())), r@),
            !(self@ is Random) ==> final(rng).drawn() == old(rng).drawn(),
    {
        proof {
            lemma_drew_none(rng.drawn());
        }
        match self {
            Value::Auto => Value::Fixed(auto),
            Value::Random => Value::Fixed(T::random(rng)),
            Value::Func(f) => Value::Fixed(f.call()),
            Value::Fixed(x) => Value::Fixed(x.dup()),
        }
    }

    /// A copy of the field: the same value, and for a computed field the same
    /// function.
    pub fn dup(&self) -> (r: Value<T>)
        ensures
            r@ == self@,
            r.func() == self.func(),
    {
        match self {
            Value::Auto => Value::Auto,
            Value::Random => Value::Random,
            Value::Func(f) => Value::Func(*f),
            Value::Fixed(x) => Value::Fixed(x.dup()),
        }
    }

    /// The fixed value, or `d` where none is fixed.
    pub fn or(&self, d: T) -> (r: T)
        ensures
            r@ == self@.or(d@),
    {
        match self {
            Value::Fixed(x) => x.dup(),
            _ => d,
        }
    }

    /// The concrete value of the field, with `rng` for `Random`: the default
    /// of `T` for `Auto`, a drawn value for `Random`, the function's result for
    /// `Func`, and the fixed value for `Fixed`.
    pub fn value_with<R: RandomSource>(&self, rng: &mut R) -> (r: T)
        ensures
            self@ is Auto ==> r@ == T::default_view(),
            self@ matches ValueView::Fixed(x) ==> r@ == x,
            self@ is Random ==> drew(old(rng).drawn(), final(rng).drawn(), T::draws()) && r@
                == T::of_draws(fresh(old(rng).drawn(), final(rng).drawn())),
            !(self@ is Random) ==> final(rng).drawn() == old(rng).drawn(),
    {
        match self {
            Value::Auto => T::default_value(),
            Value::Random => T::random(rng),
            Value::Func(f) => f.call(),
            Value::Fixed(x) => x.dup(),
        }
    }

    /// The concrete value of the field, with the calling thread's random
    /// source for `Random`.
    pub fn value(&self) -> (r: T)
        ensures
            self@ is Auto ==> r@ == T::default_view(),
            self@ matches ValueView::Fixed(x) ==> r@ == x,
    {
        let mut rng = ThreadRandom::new();
        self.value_with(&mut rng)
    }
}

/// The error of reading a field value from text.
#[derive(Clone, Copy, Debug, PartialEq, Eq)]
pub enum ValueParseError {
    Error,
}

impl Field for u8 {
    open spec fn default_view() -> u8 {
        0
    }

    fn default_value() -> (r: u8) {
        0
    }

    open spec fn draws() -> nat {
        1
    }

    open spec fn of_draws(d: Seq<u32>) -> u8 {
        low8(d[0])
    }

    fn random<R: RandomSource>(rng: &mut R) -> (r: u8) {
        let x = draw(rng);
        assert(u8::draws() == 1 && u8::of_draws(seq![x]) == low8(x));
        (x % 0x100) as u8
    }

    fn dup(&self) -> (r: u8) {
        *self
    }
}

impl Field for u16 {
    open spec fn default_view() -> u16 {
        0
    }

    fn default_value() -> (r: u16) {
        0
    }

    open spec fn draws() -> nat {
        1
    }

    open spec fn of_draws(d: Seq<u32>) -> u16 {
        low16(d[0])
    }

    fn random<R: RandomSource>(rng: &mut R) -> (r: u16) {
        let x = draw(rng);
        (x % 0x1_0000) as u16
    }

    fn dup(&self) -> (r: u16) {
        *self
    }
}

impl Field for u32 {
    open spec fn default_view() -> u32 {
        0
    }

    fn default_value() -> (r: u32) {
        0
    }

    open spec fn draws() -> nat {
        1
    }

    open spec fn of_draws(d: Seq<u32>) -> u32 {
        d[0]
    }

    fn random<R: RandomSource>(rng: &mut R) -> (r: u32) {
        draw(rng)
    }

    fn dup(&self) -> (r: u32) {
        *self
    }
}

impl Field for i32 {
    open spec fn default_view() -> i32 {
        0
    }

    fn default_value() -> (r: i32) {
        0
    }

    open spec fn draws() -> nat {
        1
    }

    open spec fn of_draws(d: Seq<u32>) -> i32 {
        signed_of(d[0])
    }

    fn random<R: RandomSource>(rng: &mut R) -> (r: i32) {
        to_signed(draw(rng))
    }

    fn dup(&self) -> (r: i32) {
        *self
    }
}

impl Field for bool {
    open spec fn default_view() -> bool {
        false
    }

    fn default_value() -> (r: bool) {
        false
    }

    open spec fn draws() -> nat {
        1
    }

    open spec fn of_draws(d: Seq<u32>) -> bool {
        d[0] % 2 == 1
    }

    fn random<R: RandomSource>(rng: &mut R) -> (r: bool) {
        draw(rng) % 2 == 1
    }

    fn dup(&self) -> (r: bool) {
        *self
    }
}

} // verus!
