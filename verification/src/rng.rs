//! The pseudo-random generator that drives spawn positions, enemy speeds and
//! blood splats: a 32-bit linear congruential generator.
use vstd::prelude::*;

verus! {

/// Multiplier of the generator.
pub const LCG_MULTIPLIER: u32 = 1664525;

/// Increment of the generator.
pub const LCG_INCREMENT: u32 = 1013904223;

/// The state the generator starts from.
pub const LCG_SEED: u32 = 0x1234abcd;

/// One step of the generator, over the integers: `(a * s + c) mod 2^32`.
pub open spec fn lcg_step(state: u32) -> u32 {
    ((state as nat * LCG_MULTIPLIER as nat + LCG_INCREMENT as nat) % 0x1_0000_0000) as u32
}

/// Advances the generator state by one step.
pub fn lcg_next(state: u32) -> (next: u32)
    ensures
        next == lcg_step(state),
        next as nat == (state as nat * 1664525 + 1013904223) % 0x1_0000_0000,
{
    let next = state.wrapping_mul(LCG_MULTIPLIER).wrapping_add(LCG_INCREMENT);
    proof {
        let p = (state as nat * LCG_MULTIPLIER as nat) % 0x1_0000_0000;
        assert(((p + LCG_INCREMENT as nat) % 0x1_0000_0000) == lcg_step(state)) by {
            vstd::arithmetic::div_mod::lemma_add_mod_noop(
                (state as nat * LCG_MULTIPLIER as nat) as int,
                LCG_INCREMENT as int,
                0x1_0000_0000,
            );
            vstd::arithmetic::div_mod::lemma_mod_twice(LCG_INCREMENT as int, 0x1_0000_0000);
        }
    }
    proof {
        lemma_lcg_step_value(state);
    }
    next
}

/// One step of the generator multiplies the state by 1664525, adds
/// 1013904223, and keeps the low 32 bits, for every state.
pub proof fn lemma_lcg_step_value(state: u32)
    ensures
        lcg_step(state) as nat == (state as nat * 1664525 + 1013904223) % 0x1_0000_0000,
{
}

/// The generator's state, kept between draws.
pub struct Lcg {
    pub state: u32,
}

impl Lcg {
    /// A generator at its fixed starting state.
    pub fn new() -> (lcg: Self)
        ensures
            lcg.state == LCG_SEED,
            lcg.state == 0x1234abcd,
    {
        Lcg { state: LCG_SEED }
    }

    /// Advances the generator and returns its new state, the raw draw.
    pub fn next_u32(&mut self) -> (draw: u32)
        ensures
            draw == lcg_step(old(self).state),
            draw as nat == (old(self).state as nat * 1664525 + 1013904223) % 0x1_0000_0000,
            final(self).state == draw,
    {
        let next = lcg_next(self.state);
        self.state = next;
        next
    }
}

} // verus!
