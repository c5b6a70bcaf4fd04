//! When a body moves: the integration gate and the bound on positional
//! correction.
use core::cmp::Ordering;
use vstd::prelude::*;
use crate::band::{in_band, within_band};

verus! {

/// The most correction rounds that separate one colliding pair.
pub const CORRECTION_ROUNDS: u32 = 100;

/// A body is integrated only when it is not kinematic and its force holds no
/// NaN component.
pub open spec fn integrable(is_kinematic: bool, force_is_nan: bool) -> bool {
    !is_kinematic && !force_is_nan
}

/// Whether a body with these flags is integrated this step; otherwise its
/// position, velocities and energy stay as they are, whatever the time step.
pub fn may_integrate(is_kinematic: bool, force_is_nan: bool) -> (r: bool)
    ensures
        r == integrable(is_kinematic, force_is_nan),
        is_kinematic ==> !r,
        force_is_nan ==> !r,
{
    !is_kinematic && !force_is_nan
}

/// Whether another correction round runs for a pair: fewer than
/// `CORRECTION_ROUNDS` have run and the pair still overlaps, tangency
/// included. `lower` and `upper` are the overlap rule's comparison outcomes on
/// the bodies' current positions.
pub open spec fn correction_continues(
    rounds_done: u32,
    lower: Option<Ordering>,
    upper: Option<Ordering>,
) -> bool {
    rounds_done < CORRECTION_ROUNDS && in_band(lower, upper, true)
}

/// Decides whether to run one more correction round.
pub fn continue_correction(
    rounds_done: u32,
    lower: Option<Ordering>,
    upper: Option<Ordering>,
) -> (r: bool)
    ensures
        r == correction_continues(rounds_done, lower, upper),
{
    rounds_done < CORRECTION_ROUNDS && within_band(lower, upper, true)
}

/// The correction of a pair stops after at most `CORRECTION_ROUNDS` rounds,
/// and at once when the pair no longer overlaps.
pub proof fn lemma_correction_stops(
    rounds_done: u32,
    lower: Option<Ordering>,
    upper: Option<Ordering>,
)
    ensures
        rounds_done >= CORRECTION_ROUNDS ==> !correction_continues(rounds_done, lower, upper),
        !in_band(lower, upper, true) ==> !correction_continues(rounds_done, lower, upper),
{
}

} // verus!
