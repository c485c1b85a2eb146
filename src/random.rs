//! Random draws: velocities of new balls and colours.
use vstd::prelude::*;

use rand::distributions::{Distribution, Uniform};

use crate::ball::Rgb;

verus! {

/// Relies on rand's `Uniform::from(low..high)` sampled with `thread_rng()`:
/// the value lies in `[low, high)`. The call panics when `low >= high`.
#[verifier::external_body]
pub(crate) fn sample_range(low: i64, high: i64) -> (r: i64)
    requires
        low < high,
    ensures
        low <= r < high,
{
    Uniform::from(low..high).sample(&mut rand::thread_rng())
}

/// A colour drawn at random.
pub fn random_color() -> Rgb {
    let r = sample_range(0, 256) as u8;
    let g = sample_range(0, 256) as u8;
    let b = sample_range(0, 256) as u8;
    Rgb { r, g, b }
}

} // verus!
