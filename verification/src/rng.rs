//! Sources of random rolls for grid generation.
//!
//! A source is any type that can say, as a mathematical sequence, which
//! rolls it will hand out; generation is then a pure function of that
//! sequence, which is what makes the weighted-distribution rules testable
//! and the whole generation reproducible from a seed.

use vstd::prelude::*;

verus! {

/// A deterministic stream of rolls. `stream` is the exact sequence of values
/// `next_roll` will return, so every draw is pinned by the source's state.
pub trait RollSource {
    spec fn stream(&self) -> Seq<u8>;

    fn next_roll(&mut self) -> (roll: u8)
        requires
            old(self).stream().len() > 0,
        ensures
            roll == old(self).stream()[0],
            final(self).stream() == old(self).stream().drop_first(),
    ;
}

/// A source that returns the same value a fixed number of times; the
/// degenerate random source used to pin down the distribution rules.
#[derive(Clone, Copy, PartialEq, Eq, Structural, Debug)]
pub struct ConstSource {
    pub value: u8,
    pub remaining: usize,
}

impl ConstSource {
    /// A source that will produce `value` exactly `rolls` times.
    pub fn new(value: u8, rolls: usize) -> (source: ConstSource)
        ensures
            source.stream() == Seq::new(rolls as nat, |i: int| value),
            source.stream().len() == rolls,
    {
        ConstSource { value, remaining: rolls }
    }
}

impl RollSource for ConstSource {
    open spec fn stream(&self) -> Seq<u8> {
        Seq::new(self.remaining as nat, |i: int| self.value)
    }

    fn next_roll(&mut self) -> (roll: u8) {
        proof {
            assert(old(self).stream().drop_first() =~= Seq::new(
                (self.remaining - 1) as nat,
                |i: int| self.value,
            ));
        }
        self.remaining = self.remaining - 1;
        self.value
    }
}

/// The state transition of a linear congruential generator modulo 2^32,
/// with the classic multiplier 1664525 and increment 1013904223.
pub open spec fn lcg_next(state: u32) -> u32 {
    ((state as int * 1664525 + 1013904223) % 0x1_0000_0000) as u32
}

/// The roll a generator state stands for: the middle bits reduced to the
/// range 0 to 99 inclusive.
pub open spec fn lcg_roll(state: u32) -> u8 {
    (((state >> 16) % 100) as u8)
}

/// The sequence of `n` rolls produced from `state`: each step advances the
/// state first and then reads a roll from the new state.
pub open spec fn lcg_stream(state: u32, n: nat) -> Seq<u8>
    decreases n,
{
    if n == 0 {
        Seq::empty()
    } else {
        seq![lcg_roll(lcg_next(state))] + lcg_stream(lcg_next(state), (n - 1) as nat)
    }
}

/// A stream of `n` rolls from a seed has exactly `n` entries.
pub proof fn lemma_lcg_stream_len(state: u32, n: nat)
    ensures
        lcg_stream(state, n).len() == n,
    decreases n,
{
    if n > 0 {
        lemma_lcg_stream_len(lcg_next(state), (n - 1) as nat);
    }
}

/// Every roll of an LCG stream is at most 99, so the defensive bedrock
/// branch of the weighted table is unreachable under this source.
pub proof fn lemma_lcg_stream_bounded(state: u32, n: nat)
    ensures
        forall|i: int| 0 <= i < lcg_stream(state, n).len() ==> lcg_stream(state, n)[i] <= 99,
    decreases n,
{
    if n > 0 {
        lemma_lcg_stream_bounded(lcg_next(state), (n - 1) as nat);
        assert forall|i: int| 0 <= i < lcg_stream(state, n).len() implies lcg_stream(
            state,
            n,
        )[i] <= 99 by {
            if i > 0 {
                assert(lcg_stream(state, n)[i] == lcg_stream(lcg_next(state), (n - 1) as nat)[
                    i - 1
                ]);
            }
        }
    }
}

/// A seeded pseudo-random source: a linear congruential generator that will
/// produce a fixed number of rolls. The same seed always yields the same
/// stream, which is the reproducibility the generation contract asks for.
#[derive(Clone, Copy, PartialEq, Eq, Structural, Debug)]
pub struct LcgSource {
    pub state: u32,
    pub remaining: usize,
}

impl LcgSource {
    /// A source seeded with `seed` that will produce `rolls` rolls.
    pub fn new(seed: u32, rolls: usize) -> (source: LcgSource)
        ensures
            source.stream() == lcg_stream(seed, rolls as nat),
            source.stream().len() == rolls,
    {
        proof {
            lemma_lcg_stream_len(seed, rolls as nat);
        }
        LcgSource { state: seed, remaining: rolls }
    }
}

impl RollSource for LcgSource {
    open spec fn stream(&self) -> Seq<u8> {
        lcg_stream(self.state, self.remaining as nat)
    }

    fn next_roll(&mut self) -> (roll: u8) {
        proof {
            if self.remaining == 0 {
                assert(old(self).stream().len() == 0);
            }
        }
        let wide: u64 = (self.state as u64) * 1664525 + 1013904223;
        let new_state: u32 = (wide % 0x1_0000_0000) as u32;
        proof {
            assert(new_state == lcg_next(old(self).state));
            assert(old(self).stream() == seq![lcg_roll(new_state)] + lcg_stream(
                new_state,
                (old(self).remaining - 1) as nat,
            ));
            assert(old(self).stream()[0] == lcg_roll(new_state));
            assert(old(self).stream().drop_first() =~= lcg_stream(
                new_state,
                (old(self).remaining - 1) as nat,
            ));
        }
        self.state = new_state;
        self.remaining = self.remaining - 1;
        ((new_state >> 16) % 100) as u8
    }
}

} // verus!
