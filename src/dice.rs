//! The injected source of randomness.
use rand::rngs::StdRng;
use rand::Rng;
use rand::SeedableRng;
use vstd::prelude::*;

verus! {

#[verifier::external_type_specification]
#[verifier::external_body]
pub struct ExStdRng(StdRng);

/// Relies on rand's `SeedableRng::seed_from_u64` for `StdRng`: a generator
/// whose whole stream is fixed by the seed.
#[verifier::external_body]
fn seeded_rng(seed: u64) -> StdRng {
    StdRng::seed_from_u64(seed)
}

/// Relies on rand's `Rng::gen_range` for `u64`: a value in `[low, high)`;
/// it panics unless `low < high`.
#[verifier::external_body]
fn gen_below(rng: &mut StdRng, bound: u64) -> (r: u64)
    requires
        0 < bound,
    ensures
        r < bound,
{
    rng.gen_range(0, bound)
}

/// Whether a drawn value hits a chance: it does when it falls below it.
pub fn hits(drawn: u64, chance: u64) -> (hit: bool)
    ensures
        hit == (drawn < chance),
{
    drawn < chance
}

/// A seeded generator: every random choice of a run is drawn from one of
/// these, so a run is reproduced by its seeds.
pub struct Dice {
    rng: StdRng,
}

impl Dice {
    pub fn seeded(seed: u64) -> Dice {
        Dice { rng: seeded_rng(seed) }
    }

    /// A value drawn uniformly from `[0, bound)`.
    pub fn below(&mut self, bound: u64) -> (r: u64)
        requires
            0 < bound,
        ensures
            r < bound,
    {
        gen_below(&mut self.rng, bound)
    }

    /// `true` with probability `chance / out_of`: a value drawn from
    /// `[0, out_of)` hits when it falls below `chance`.
    pub fn roll_dice(&mut self, chance: u64, out_of: u64) -> (hit: bool)
        requires
            0 < out_of,
        ensures
            chance == 0 ==> !hit,
            out_of <= chance ==> hit,
    {
        hits(self.below(out_of), chance)
    }
}

} // verus!
