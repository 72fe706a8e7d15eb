//! The initial state: each cell alive with probability 3/5, drawn from the
//! thread's random generator, or taken from given draws.
use vstd::prelude::*;
use rand::distributions::{Bernoulli, BernoulliError, Distribution};
use rand::rngs::ThreadRng;
use crate::life::cells_binary;

verus! {

/// Numerator of the probability that a seeded cell is alive.
pub const ALIVE_NUMERATOR: u32 = 3;

/// Denominator of the probability that a seeded cell is alive.
pub const ALIVE_DENOMINATOR: u32 = 5;

#[verifier::external_type_specification]
#[verifier::external_body]
pub struct ExBernoulli(Bernoulli);

#[verifier::external_type_specification]
#[verifier::external_body]
pub struct ExBernoulliError(BernoulliError);

#[verifier::external_type_specification]
#[verifier::external_body]
pub struct ExThreadRng(ThreadRng);

/// Relies on `rand::distributions::Bernoulli::from_ratio`: it fails exactly
/// when the denominator is zero or below the numerator.
#[verifier::external_body]
fn bernoulli_from_ratio(numerator: u32, denominator: u32) -> (r: Result<Bernoulli, BernoulliError>)
    ensures
        r is Ok <==> (denominator != 0 && numerator <= denominator),
{
    Bernoulli::from_ratio(numerator, denominator)
}

/// Relies on `rand::thread_rng`: a handle on the thread's generator.
#[verifier::external_body]
fn thread_rng() -> ThreadRng {
    rand::thread_rng()
}

/// Relies on `Distribution::<bool>::sample` for `Bernoulli`: one draw, which
/// may be either value.
#[verifier::external_body]
fn draw(dist: &Bernoulli, rng: &mut ThreadRng) -> bool {
    dist.sample(rng)
}

/// The value of a cell seeded from one draw: 1 when alive.
pub fn cell_from_draw(alive: bool) -> (r: u32)
    ensures
        r == if alive { 1u32 } else { 0u32 },
{
    if alive {
        1
    } else {
        0
    }
}

/// A seeded state with one cell per draw, alive where the draw is.
pub fn seed_from_draws(draws: &Vec<bool>) -> (r: Vec<u32>)
    ensures
        r@.len() == draws@.len(),
        forall|i: int| 0 <= i < r@.len() ==> #[trigger] r@[i] == if draws@[i] { 1u32 } else { 0u32 },
        cells_binary(r@),
{
    let mut out: Vec<u32> = Vec::new();
    let mut i: usize = 0;
    while i < draws.len()
        invariant
            i <= draws@.len(),
            out@.len() == i,
            forall|j: int| 0 <= j < i ==> #[trigger] out@[j] == if draws@[j] { 1u32 } else { 0u32 },
        decreases draws@.len() - i,
    {
        out.push(cell_from_draw(draws[i]));
        i = i + 1;
    }
    out
}

/// `n` draws of the seeding distribution: each true with probability
/// `ALIVE_NUMERATOR / ALIVE_DENOMINATOR`.
pub fn random_draws(n: usize) -> (r: Vec<bool>)
    ensures
        r@.len() == n,
{
    let dist = match bernoulli_from_ratio(ALIVE_NUMERATOR, ALIVE_DENOMINATOR) {
        Ok(d) => d,
        Err(_) => {
            proof {
                assert(false);
            }
            return Vec::new();
        },
    };
    let mut rng = thread_rng();
    let mut out: Vec<bool> = Vec::new();
    let mut i: usize = 0;
    while i < n
        invariant
            i <= n,
            out@.len() == i,
        decreases n - i,
    {
        out.push(draw(&dist, &mut rng));
        i = i + 1;
    }
    out
}

/// A randomly seeded state of `n` cells, each alive with probability 3/5.
pub fn seed_random(n: usize) -> (r: Vec<u32>)
    ensures
        r@.len() == n,
        cells_binary(r@),
{
    let draws = random_draws(n);
    seed_from_draws(&draws)
}

} // verus!
