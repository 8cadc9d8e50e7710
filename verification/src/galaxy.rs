use rand::Rng;
use rand::rngs::ThreadRng;
use vstd::prelude::*;

verus! {

/// The random number generator of the current thread.
#[verifier::external_type_specification]
#[verifier::external_body]
pub struct ExThreadRng(rand::rngs::ThreadRng);

/// Deepest octree level of a galaxy code.
pub const MAX_LEVEL: u32 = 8;

/// Number of galaxies drawn from in one octree block.
pub const GALAXIES_PER_BLOCK: u32 = 2500;

/// Galaxy type code that is skipped besides the elliptical range.
pub const IRREGULAR_TYPE: u32 = 16;

/// A galaxy code: an octree level, a block at that level, and a number
/// within the block.
#[derive(Clone, Copy, Debug, PartialEq, Eq)]
pub struct GalaxyCode {
    /// Octree level, 1 to 8.
    pub level: u32,
    /// Block at that level, below 8 to the power of the level.
    pub block: u32,
    /// Galaxy number within the block, below 2500.
    pub number: u32,
}

/// Eight to the power `n`.
pub open spec fn pow8(n: nat) -> nat
    decreases n,
{
    if n == 0 {
        1
    } else {
        8 * pow8((n - 1) as nat)
    }
}

/// A galaxy code that SpaceEngine's octree can hold.
pub open spec fn valid_galaxy_code(c: GalaxyCode) -> bool {
    &&& 1 <= c.level <= MAX_LEVEL
    &&& c.block < pow8(c.level as nat)
    &&& c.number < GALAXIES_PER_BLOCK
}

/// `rand::Rng::gen_range` over `low..high` on the thread's generator. Its
/// contract claims that the result lies in the range; which value comes out
/// is left to chance. The range must not be empty (the call panics on an
/// empty range).
#[verifier::external_body]
fn gen_range_u32(rng: &mut ThreadRng, low: u32, high: u32) -> (r: u32)
    requires
        low < high,
    ensures
        low <= r < high,
{
    rng.gen_range(low..high)
}

/// `pow8` is eight raised to the power, as vstd's `pow` defines it.
pub proof fn law_pow8_is_power_of_eight(n: nat)
    ensures
        pow8(n) == vstd::arithmetic::power::pow(8, n),
    decreases n,
{
    reveal(vstd::arithmetic::power::pow);
    if n > 0 {
        law_pow8_is_power_of_eight((n - 1) as nat);
    }
}

/// Eight to the power `level`: the number of octree blocks at that level.
pub fn blocks_at_level(level: u32) -> (n: u32)
    requires
        level <= 10,
    ensures
        n == pow8(level as nat),
        n == vstd::arithmetic::power::pow(8, level as nat),
{
    proof {
        law_pow8_is_power_of_eight(level as nat);
    }
    let mut n: u32 = 1;
    let mut i: u32 = 0;
    proof {
        lemma_pow8_monotone(0, 10);
    }
    while i < level
        invariant
            i <= level <= 10,
            n == pow8(i as nat),
            n <= pow8(10),
        decreases level - i,
    {
        proof {
            lemma_pow8_monotone((i + 1) as nat, 10);
        }
        n = n * 8;
        i = i + 1;
    }
    n
}

proof fn lemma_pow8_monotone(a: nat, b: nat)
    requires
        a <= b,
    ensures
        pow8(a) <= pow8(b),
        pow8(10) == 1073741824,
    decreases b,
{
    reveal_with_fuel(pow8, 11);
    if a < b {
        lemma_pow8_monotone(a, (b - 1) as nat);
    }
}

/// Draws a random galaxy code: a level from 1 to 8, a block below 8 to the
/// power of the level, and a galaxy number below 2500.
pub fn random_galaxy_code(rng: &mut ThreadRng) -> (c: GalaxyCode)
    ensures
        valid_galaxy_code(c),
        1 <= c.level <= 8,
        c.block < vstd::arithmetic::power::pow(8, c.level as nat),
        c.number < 2500,
{
    let level = gen_range_u32(rng, 1, MAX_LEVEL + 1);
    let blocks = blocks_at_level(level);
    proof {
        lemma_pow8_monotone(0, level as nat);
    }
    let block = gen_range_u32(rng, 0, blocks);
    proof {
        law_pow8_is_power_of_eight(level as nat);
    }
    let number = gen_range_u32(rng, 0, GALAXIES_PER_BLOCK);
    GalaxyCode { level, block, number }
}

/// Galaxy types that are passed over: the elliptical range 1 to 8 and the
/// irregular type 16.
pub open spec fn skipped_galaxy_type(t: u32) -> bool {
    (1 <= t <= 8) || t == IRREGULAR_TYPE
}

/// A galaxy is passed over exactly when its type is elliptical (1 to 8) or
/// irregular (16); type 0 and the types 9 to 15 and above 16 are searched.
pub proof fn law_skipped_galaxy_types(t: u32)
    ensures
        skipped_galaxy_type(t) <==> (1 <= t <= 8 || t == 16),
        9 <= t <= 15 ==> !skipped_galaxy_type(t),
        t == 0 || t > 16 ==> !skipped_galaxy_type(t),
{
}

/// Whether a galaxy of this type is passed over.
pub fn galaxy_type_skipped(galaxy_type: u32) -> (r: bool)
    ensures
        r == skipped_galaxy_type(galaxy_type),
        r <==> (1 <= galaxy_type <= 8 || galaxy_type == 16),
{
    proof {
        law_skipped_galaxy_types(galaxy_type);
    }
    (1 <= galaxy_type && galaxy_type <= 8) || galaxy_type == IRREGULAR_TYPE
}

} // verus!
