use vstd::prelude::*;

verus! {

/// Multiplier of the linear congruential generator behind every roll.
pub const LCG_MULTIPLIER: u64 = 6364136223846793005u64;

/// Increment of the linear congruential generator behind every roll.
pub const LCG_INCREMENT: u64 = 1442695040888963407u64;

/// The generator state after one step: `state * a + c` modulo 2^64.
pub open spec fn lcg_next(state: u64) -> u64 {
    ((state as nat * LCG_MULTIPLIER as nat + LCG_INCREMENT as nat) % 0x1_0000_0000_0000_0000nat) as u64
}

/// The byte a state yields: bits 32 to 39 of the state.
pub open spec fn lcg_byte(state: u64) -> nat {
    (state as nat / 0x1_0000_0000nat) % 256
}

/// The value below `max_exclusive` drawn from `state` (the generator steps first).
pub open spec fn draw(state: u64, max_exclusive: u8) -> u8 {
    (lcg_byte(lcg_next(state)) % max_exclusive as nat) as u8
}

/// A d100 roll (1 to 100) drawn from `state`.
pub open spec fn d100_roll(state: u64) -> u8 {
    (draw(state, 100) + 1) as u8
}

/// The state after `n` draws from `state`.
pub open spec fn lcg_advance(state: u64, n: nat) -> u64
    decreases n,
{
    if n == 0 {
        state
    } else {
        lcg_next(lcg_advance(state, (n - 1) as nat))
    }
}

/// The deterministic generator that every roll of the game uses.
#[derive(Debug, Clone, Copy)]
pub struct SeededRng {
    pub state: u64,
}

impl SeededRng {
    pub fn new(seed: u64) -> (r: Self)
        ensures
            r.state == seed,
    {
        SeededRng { state: seed }
    }

    /// Steps the generator and returns a value below `max_exclusive`.
    pub fn next_u8(&mut self, max_exclusive: u8) -> (r: u8)
        requires
            max_exclusive > 0,
        ensures
            final(self).state == lcg_next(old(self).state),
            r == draw(old(self).state, max_exclusive),
            r < max_exclusive,
    {
        let next = self.state.wrapping_mul(LCG_MULTIPLIER).wrapping_add(LCG_INCREMENT);
        proof {
            let p = (self.state as nat * LCG_MULTIPLIER as nat) % 0x1_0000_0000_0000_0000nat;
            assert(p < 0x1_0000_0000_0000_0000nat);
            assert((self.state as nat * LCG_MULTIPLIER as nat + LCG_INCREMENT as nat)
                % 0x1_0000_0000_0000_0000nat == (p + LCG_INCREMENT as nat)
                % 0x1_0000_0000_0000_0000nat) by {
                vstd::arithmetic::div_mod::lemma_add_mod_noop(
                    (self.state as nat * LCG_MULTIPLIER as nat) as int,
                    LCG_INCREMENT as int,
                    0x1_0000_0000_0000_0000int,
                );
                vstd::arithmetic::div_mod::lemma_mod_twice(
                    LCG_INCREMENT as int, 0x1_0000_0000_0000_0000int);
            }
        }
        self.state = next;
        let byte = (next >> 32) as u8;
        assert(byte == (next / 0x1_0000_0000u64) % 256) by (bit_vector)
            requires
                byte == (next >> 32) as u8,
        ;
        byte % max_exclusive
    }

    /// A roll of a hundred-sided die, from 1 to 100.
    pub fn d100(&mut self) -> (r: u8)
        ensures
            final(self).state == lcg_next(old(self).state),
            r == d100_roll(old(self).state),
            1 <= r <= 100,
    {
        self.next_u8(100) + 1
    }
}

} // verus!

verus! {

/// `seed + k` wrapping around 2^64.
pub open spec fn wrapping_offset(seed: u64, k: u64) -> u64 {
    ((seed as nat + k as nat) % 0x1_0000_0000_0000_0000nat) as u64
}

/// A seed moved on by `k`, wrapping around 2^64.
pub fn offset_seed(seed: u64, k: u64) -> (r: u64)
    ensures
        r == wrapping_offset(seed, k),
{
    seed.wrapping_add(k)
}

} // verus!
