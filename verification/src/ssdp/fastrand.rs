//! Fast non-cryptographic random numbers (xorshift), for the delay before
//! each answer to a search.

use vstd::prelude::*;

verus! {

/// One xorshift step.
pub open spec fn xorshift(s: u64) -> u64 {
    let a = s ^ (s >> 12u64);
    let b = a ^ (a << 25u64);
    b ^ (b >> 27u64)
}

/// Fast random number generator
pub struct Rng {
    state: u64,
}

impl Rng {
    pub closed spec fn state(&self) -> u64 {
        self.state
    }

    /// A generator seeded with `seed` (the clock's nanoseconds, as a rule).
    pub fn new(seed: u64) -> (r: Rng)
        ensures
            r.state() == seed,
    {
        Rng { state: seed }
    }

    /// A generator seeded from the clock; its state depends on the clock,
    /// so nothing is claimed of it.
    pub fn from_clock() -> (r: Rng) {
        Rng { state: clock_seed() }
    }
}

/// The clock's nanoseconds since the Unix epoch, cut to 64 bits (0 where the
/// clock reads before the epoch). It depends on the clock: nothing is claimed
/// of it.
#[verifier::external_body]
fn clock_seed() -> u64 {
    std::time::SystemTime::now().duration_since(std::time::UNIX_EPOCH).map(|d| d.as_nanos() as u64).unwrap_or(0)
}

/// A number in `start..end`: the state takes one xorshift step, and the new
/// state, scrambled by a multiplication, is reduced into the range.
pub fn u64(rng: &mut Rng, start: u64, end: u64) -> (r: u64)
    requires
        start < end,
    ensures
        final(rng).state() == xorshift(old(rng).state()),
        r == start + (xorshift(old(rng).state()).wrapping_mul(0x2545F4914F6CDD1Du64) % ((end - start) as u64)),
        start <= r < end,
{
    let mut state = rng.state;
    state ^= state >> 12u64;
    state ^= state << 25u64;
    state ^= state >> 27u64;
    rng.state = state;
    let value = state.wrapping_mul(0x2545F4914F6CDD1Du64);
    let span = end - start;
    let off = value % span;
    assert(off < span);
    start + off
}

} // verus!
