//! A small deterministic xorshift pseudo-random generator. It supplies the
//! withdrawal amounts of the simulated environment; every draw is a pure
//! function of the seed, so a run of the simulation is reproducible.

use vstd::prelude::*;

verus! {

/// Word used in place of an all-zero seed, which would pin the generator at
/// zero forever.
pub const SEED_FALLBACK: u32 = 0x9E37_79B9;

/// A seed: four 32-bit words.
#[derive(Clone, Copy, PartialEq, Eq, Structural, Debug)]
pub struct Seed {
    pub w0: u32,
    pub w1: u32,
    pub w2: u32,
    pub w3: u32,
}

/// The all-zero seed that `Seed::default` returns.
pub open spec fn spec_default_seed() -> Seed {
    Seed { w0: 0, w1: 0, w2: 0, w3: 0 }
}

impl Default for Seed {
    fn default() -> (r: Self)
        ensures
            r == spec_default_seed(),
    {
        Seed { w0: 0, w1: 0, w2: 0, w3: 0 }
    }
}

/// Generator state: never all zero once seeded.
#[derive(Clone, Copy, PartialEq, Eq, Structural, Debug)]
pub struct Xs {
    pub x: u32,
    pub y: u32,
    pub z: u32,
    pub w: u32,
}

/// The state a seed starts the generator in.
pub open spec fn spec_from_seed(seed: Seed) -> Xs {
    if seed.w0 == 0 && seed.w1 == 0 && seed.w2 == 0 && seed.w3 == 0 {
        Xs { x: SEED_FALLBACK, y: 0, z: 0, w: 0 }
    } else {
        Xs { x: seed.w0, y: seed.w1, z: seed.w2, w: seed.w3 }
    }
}

/// Seeds the generator, replacing an all-zero seed with a fixed word.
pub fn from_seed(seed: Seed) -> (r: Xs)
    ensures
        r == spec_from_seed(seed),
{
    if seed.w0 == 0 && seed.w1 == 0 && seed.w2 == 0 && seed.w3 == 0 {
        Xs { x: SEED_FALLBACK, y: 0, z: 0, w: 0 }
    } else {
        Xs { x: seed.w0, y: seed.w1, z: seed.w2, w: seed.w3 }
    }
}

/// One xorshift step; the new `w` word is the step's output.
pub open spec fn spec_step(s: Xs) -> Xs {
    let t = s.x ^ (s.x << 11u32);
    Xs { x: s.y, y: s.z, z: s.w, w: s.w ^ (s.w >> 19u32) ^ (t ^ (t >> 8u32)) }
}

/// The state after `n` steps.
pub open spec fn nth_state(s: Xs, n: nat) -> Xs
    decreases n,
{
    if n == 0 {
        s
    } else {
        spec_step(nth_state(s, (n - 1) as nat))
    }
}

/// Advances the generator one step and returns its output word.
pub fn next_u32(xs: &mut Xs) -> (r: u32)
    ensures
        *final(xs) == spec_step(*old(xs)),
        r == spec_step(*old(xs)).w,
{
    let t: u32 = xs.x ^ (xs.x << 11u32);
    xs.x = xs.y;
    xs.y = xs.z;
    xs.z = xs.w;
    xs.w = xs.w ^ (xs.w >> 19u32) ^ (t ^ (t >> 8u32));
    xs.w
}

/// The value `range` draws from state `s`.
pub open spec fn spec_range_result(s: Xs, min: u32, one_past_max: u32) -> int
    recommends
        min < one_past_max,
{
    min + (spec_step(s).w as int) % (one_past_max - min as int)
}

/// Draws a value in `min..one_past_max`, advancing the generator one step.
pub fn range(xs: &mut Xs, min: u32, one_past_max: u32) -> (r: u32)
    requires
        min < one_past_max,
    ensures
        *final(xs) == spec_step(*old(xs)),
        r == spec_range_result(*old(xs), min, one_past_max),
        min <= r < one_past_max,
{
    let d: u32 = one_past_max - min;
    let v: u32 = next_u32(xs);
    min + (v % d)
}

} // verus!
