use vstd::prelude::*;

verus! {

/// The odd constant by which successive scenarios of one run spread their seeds.
pub const SEED_STRIDE: u64 = 0x9E37_79B9_7F4A_7C15;

/// The seed of the scenario at `index` of a run seeded with `base`:
/// `base + index * SEED_STRIDE`, wrapped to 64 bits.
pub open spec fn scenario_seed_of(base: u64, index: u64) -> u64 {
    ((base + index * SEED_STRIDE) % 0x1_0000_0000_0000_0000) as u64
}

/// The seed the scenario at `index` of a run seeded with `base` draws its
/// randomness from. A run has at most two scenarios; the stride product
/// must fit in 64 bits.
pub fn scenario_seed(base: u64, index: u64) -> (s: u64)
    requires
        index * SEED_STRIDE <= u64::MAX,
    ensures
        s == scenario_seed_of(base, index),
        s as int == (base as int + index as int * SEED_STRIDE as int) % 0x1_0000_0000_0000_0000,
        index == 0 ==> s == base,
{
    let offset = index * SEED_STRIDE;
    base.wrapping_add(offset)
}

/// The first scenario of a run uses the run's own seed, so a typed-in seed
/// reproduces it.
pub proof fn first_scenario_keeps_run_seed(base: u64)
    ensures
        scenario_seed_of(base, 0) == base,
{
}

/// The two scenarios of a run never share a seed.
pub proof fn scenarios_get_distinct_seeds(base: u64)
    ensures
        scenario_seed_of(base, 0) != scenario_seed_of(base, 1),
{
}

/// The second scenario's seed is the run's seed advanced by the stride,
/// wrapping around 64 bits.
pub proof fn second_scenario_seed_is_stride_ahead(base: u64)
    ensures
        scenario_seed_of(base, 1) as int == (if base as int + SEED_STRIDE as int
            >= 0x1_0000_0000_0000_0000 {
            base as int + SEED_STRIDE as int - 0x1_0000_0000_0000_0000
        } else {
            base as int + SEED_STRIDE as int
        }),
{
}

/// Different run seeds give different seeds to the same scenario.
pub proof fn scenario_seeds_follow_run_seed(base1: u64, base2: u64, index: u64)
    requires
        base1 != base2,
    ensures
        scenario_seed_of(base1, index) != scenario_seed_of(base2, index),
{
}

} // verus!
