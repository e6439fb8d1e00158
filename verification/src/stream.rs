//! The seeded draw source that every synthesizer pulls from.
//!
//! A stream is created from a 64-bit seed and handed by exclusive reference
//! through the name, shape, pattern and eye synthesizers, in that order. The
//! generator behind it is xoshiro256++, whose output does not depend on the
//! platform, and every draw is made at a fixed integer width. The contracts
//! here give each draw a name, so that callers can say exactly which value a
//! result was computed from.

use rand::Rng;
use rand_xoshiro::rand_core::SeedableRng;
use rand_xoshiro::Xoshiro256PlusPlus;
use vstd::prelude::*;

verus! {

#[verifier::external_type_specification]
#[verifier::external_body]
pub struct ExXoshiro256PlusPlus(Xoshiro256PlusPlus);

/// The internal state of a generator, as the words it holds.
pub uninterp spec fn generator_state(rng: Xoshiro256PlusPlus) -> Seq<u64>;

/// The state in which `Xoshiro256PlusPlus::seed_from_u64` leaves a new
/// generator.
pub uninterp spec fn seeded_state(seed: u64) -> Seq<u64>;

/// What `Rng::gen_range(low..high)` yields for `u64` bounds on a generator in
/// `state`: the number drawn, and the state the generator is left in.
pub uninterp spec fn range_draw_u64(state: Seq<u64>, low: u64, high: u64) -> (u64, Seq<u64>);

/// What `Rng::gen_range(low..high)` yields for `i32` bounds on a generator in
/// `state`: the number drawn, and the state the generator is left in.
pub uninterp spec fn range_draw_i32(state: Seq<u64>, low: i32, high: i32) -> (i32, Seq<u64>);

/// What `Rng::gen_range(low..=high)` yields for `u8` bounds on a generator in
/// `state`: the number drawn, and the state the generator is left in.
pub uninterp spec fn range_draw_u8(state: Seq<u64>, low: u8, high: u8) -> (u8, Seq<u64>);

/// Calls `Xoshiro256PlusPlus::seed_from_u64`. The new generator's state is a
/// function of the seed alone.
#[verifier::external_body]
fn seeded_generator(seed: u64) -> (rng: Xoshiro256PlusPlus)
    ensures
        generator_state(rng) == seeded_state(seed),
{
    Xoshiro256PlusPlus::seed_from_u64(seed)
}

/// Calls `Rng::gen_range` with the half-open range `low..high` of `u64`. The
/// number lies in the range; it and the state left behind are functions of
/// the state before and of the bounds. An empty range is left out: the call
/// panics on it.
#[verifier::external_body]
fn draw_u64(rng: &mut Xoshiro256PlusPlus, low: u64, high: u64) -> (n: u64)
    requires
        low < high,
    ensures
        low <= n < high,
        n == range_draw_u64(generator_state(*old(rng)), low, high).0,
        generator_state(*final(rng)) == range_draw_u64(generator_state(*old(rng)), low, high).1,
{
    rng.gen_range(low..high)
}

/// Calls `Rng::gen_range` with the half-open range `low..high` of `i32`. The
/// number lies in the range; it and the state left behind are functions of
/// the state before and of the bounds. An empty range is left out: the call
/// panics on it.
#[verifier::external_body]
fn draw_i32(rng: &mut Xoshiro256PlusPlus, low: i32, high: i32) -> (n: i32)
    requires
        low < high,
    ensures
        low <= n < high,
        n == range_draw_i32(generator_state(*old(rng)), low, high).0,
        generator_state(*final(rng)) == range_draw_i32(generator_state(*old(rng)), low, high).1,
{
    rng.gen_range(low..high)
}

/// Calls `Rng::gen_range` with the closed range `low..=high` of `u8`. The
/// number lies in the range; it and the state left behind are functions of
/// the state before and of the bounds. An empty range is left out: the call
/// panics on it.
#[verifier::external_body]
fn draw_u8(rng: &mut Xoshiro256PlusPlus, low: u8, high: u8) -> (n: u8)
    requires
        low <= high,
    ensures
        low <= n <= high,
        n == range_draw_u8(generator_state(*old(rng)), low, high).0,
        generator_state(*final(rng)) == range_draw_u8(generator_state(*old(rng)), low, high).1,
{
    rng.gen_range(low..=high)
}

/// Calls `rand::random` for a `u64`, which draws from the thread-local
/// generator. Nothing is promised of the value.
#[verifier::external_body]
pub(crate) fn random_u64() -> u64 {
    rand::random()
}

/// The index drawn from `low..high` by a stream in `state`.
pub open spec fn drawn(state: Seq<u64>, low: usize, high: usize) -> usize {
    range_draw_u64(state, low as u64, high as u64).0 as usize
}

/// The state of a stream after it drew an index from `low..high` in `state`.
pub open spec fn after_draw(state: Seq<u64>, low: usize, high: usize) -> Seq<u64> {
    range_draw_u64(state, low as u64, high as u64).1
}

/// The small number drawn from `low..high` by a stream in `state`.
pub open spec fn drawn_small(state: Seq<u64>, low: i32, high: i32) -> i32 {
    range_draw_i32(state, low, high).0
}

/// The state of a stream after it drew a small number from `low..high` in
/// `state`.
pub open spec fn after_small(state: Seq<u64>, low: i32, high: i32) -> Seq<u64> {
    range_draw_i32(state, low, high).1
}

/// The byte drawn from `low..=high` by a stream in `state`.
pub open spec fn drawn_byte(state: Seq<u64>, low: u8, high: u8) -> u8 {
    range_draw_u8(state, low, high).0
}

/// The state of a stream after it drew a byte from `low..=high` in `state`.
pub open spec fn after_byte(state: Seq<u64>, low: u8, high: u8) -> Seq<u64> {
    range_draw_u8(state, low, high).1
}

/// A deterministic source of draws. Its view is the generator's state: two
/// streams with the same view produce the same draws from then on.
pub struct SeedStream {
    rng: Xoshiro256PlusPlus,
}

impl View for SeedStream {
    type V = Seq<u64>;

    closed spec fn view(&self) -> Seq<u64> {
        generator_state(self.rng)
    }
}

impl SeedStream {
    /// Starts the stream that belongs to `seed`.
    pub fn new(seed: u64) -> (stream: SeedStream)
        ensures
            stream@ == seeded_state(seed),
    {
        SeedStream { rng: seeded_generator(seed) }
    }

    /// Draws an index from `low..high`.
    pub fn range(&mut self, low: usize, high: usize) -> (n: usize)
        requires
            low < high,
        ensures
            low <= n < high,
            n == drawn(old(self)@, low, high),
            final(self)@ == after_draw(old(self)@, low, high),
    {
        draw_u64(&mut self.rng, low as u64, high as u64) as usize
    }

    /// Draws a small signed number from `low..high`.
    pub fn small_range(&mut self, low: i32, high: i32) -> (n: i32)
        requires
            low < high,
        ensures
            low <= n < high,
            n == drawn_small(old(self)@, low, high),
            final(self)@ == after_small(old(self)@, low, high),
    {
        draw_i32(&mut self.rng, low, high)
    }

    /// Draws a byte from `low..=high`.
    pub fn byte_range(&mut self, low: u8, high: u8) -> (n: u8)
        requires
            low <= high,
        ensures
            low <= n <= high,
            n == drawn_byte(old(self)@, low, high),
            final(self)@ == after_byte(old(self)@, low, high),
    {
        draw_u8(&mut self.rng, low, high)
    }
}

/// Picking one item of a slice with a stream.
pub trait SliceExt<T> {
    /// The items to pick from, in order.
    spec fn items(&self) -> Seq<T>;

    /// Picks the item at an index drawn from the stream.
    fn random<'a>(&'a self, rng: &mut SeedStream) -> (item: &'a T)
        requires
            self.items().len() > 0,
        ensures
            drawn(old(rng)@, 0, self.items().len() as usize) < self.items().len(),
            *item == self.items()[drawn(old(rng)@, 0, self.items().len() as usize) as int],
            final(rng)@ == after_draw(old(rng)@, 0, self.items().len() as usize),
    ;
}

impl<T> SliceExt<T> for [T] {
    open spec fn items(&self) -> Seq<T> {
        self@
    }

    fn random<'a>(&'a self, rng: &mut SeedStream) -> (item: &'a T) {
        let at: usize = rng.range(0, self.len());
        &self[at]
    }
}

} // verus!
