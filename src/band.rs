//! The overlap rule for two circles.
//!
//! Two circles with radii `r0`, `r1` whose centres are `d` apart overlap when
//! `(r0 - r1)^2 <= d^2 <= (r0 + r1)^2`, or with strict comparisons when
//! tangency does not count. The caller compares the squared quantities and
//! hands the two outcomes here: `lower` compares `(r0 - r1)^2` with `d^2`, and
//! `upper` compares `d^2` with `(r0 + r1)^2`. An unordered outcome (`None`)
//! never admits an overlap.
use core::cmp::Ordering;
use vstd::prelude::*;

verus! {

/// Whether the outcome of comparing `a` with `b` means `a <= b`
/// (when `inclusive`) or `a < b` (otherwise).
pub open spec fn admits(c: Option<Ordering>, inclusive: bool) -> bool {
    c == Some(Ordering::Less) || (inclusive && c == Some(Ordering::Equal))
}

/// Both comparisons of the overlap rule hold.
pub open spec fn in_band(lower: Option<Ordering>, upper: Option<Ordering>, inclusive: bool) -> bool {
    admits(lower, inclusive) && admits(upper, inclusive)
}

/// Whether a body with id `self_id` collides with one with id `other_id`:
/// a body never collides with itself.
pub open spec fn collides(
    self_id: u32,
    other_id: u32,
    lower: Option<Ordering>,
    upper: Option<Ordering>,
    inclusive: bool,
) -> bool {
    self_id != other_id && in_band(lower, upper, inclusive)
}

/// Reads one comparison outcome under the inclusive or the strict rule.
pub fn comparison_admits(c: Option<Ordering>, inclusive: bool) -> (r: bool)
    ensures
        r == admits(c, inclusive),
{
    match c {
        Some(Ordering::Less) => true,
        Some(Ordering::Equal) => inclusive,
        _ => false,
    }
}

/// The overlap rule on the two comparison outcomes.
pub fn within_band(lower: Option<Ordering>, upper: Option<Ordering>, inclusive: bool) -> (r: bool)
    ensures
        r == in_band(lower, upper, inclusive),
{
    comparison_admits(lower, inclusive) && comparison_admits(upper, inclusive)
}

/// The collision test between two bodies: ids differ and the circles overlap.
pub fn collision_verdict(
    self_id: u32,
    other_id: u32,
    lower: Option<Ordering>,
    upper: Option<Ordering>,
    inclusive: bool,
) -> (r: bool)
    ensures
        r == collides(self_id, other_id, lower, upper, inclusive),
{
    self_id != other_id && within_band(lower, upper, inclusive)
}

/// Tangency counts as overlap under the inclusive rule and not under the
/// strict one: when either squared distance bound is met with equality, the
/// inclusive verdict is decided by the other comparison alone, and the strict
/// verdict is false.
pub proof fn lemma_tangency(other: Option<Ordering>)
    ensures
        in_band(Some(Ordering::Equal), other, true) == admits(other, true),
        in_band(other, Some(Ordering::Equal), true) == admits(other, true),
        !in_band(Some(Ordering::Equal), other, false),
        !in_band(other, Some(Ordering::Equal), false),
{
}

/// Strict overlap implies inclusive overlap.
pub proof fn lemma_strict_implies_inclusive(lower: Option<Ordering>, upper: Option<Ordering>)
    ensures
        in_band(lower, upper, false) ==> in_band(lower, upper, true),
{
}

} // verus!
