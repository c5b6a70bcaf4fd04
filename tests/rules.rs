use std::cmp::Ordering;

use nbody::band::{collision_verdict, comparison_admits, within_band};
use nbody::latch::{nearest_body, ClickLatch};
use nbody::motion::{continue_correction, may_integrate, CORRECTION_ROUNDS};
use nbody::partners::{interaction_partners, overlapping_partners};
use nbody::schedule::{collision_steps, cursor_steps, Action};

/// The two comparison outcomes of the overlap rule for circles of radii
/// `r0`, `r1` whose centres lie at `a` and `b`.
fn outcomes(r0: f32, r1: f32, a: (f32, f32), b: (f32, f32)) -> (Option<Ordering>, Option<Ordering>) {
    let diff = (r0 - r1) * (r0 - r1);
    let sum = (r0 + r1) * (r0 + r1);
    let dist_sq = (a.0 - b.0) * (a.0 - b.0) + (a.1 - b.1) * (a.1 - b.1);
    (diff.partial_cmp(&dist_sq), dist_sq.partial_cmp(&sum))
}

#[test]
fn comparison_outcomes_read_per_rule() {
    assert!(comparison_admits(Some(Ordering::Less), true));
    assert!(comparison_admits(Some(Ordering::Less), false));
    assert!(comparison_admits(Some(Ordering::Equal), true));
    assert!(!comparison_admits(Some(Ordering::Equal), false));
    assert!(!comparison_admits(Some(Ordering::Greater), true));
    assert!(!comparison_admits(None, true));
}

#[test]
fn outer_tangency_counts_only_inclusively() {
    // radii 3 and 4, centres 7 apart
    let (lower, upper) = outcomes(3.0, 4.0, (0.0, 0.0), (7.0, 0.0));
    assert_eq!(upper, Some(Ordering::Equal));
    assert!(within_band(lower, upper, true));
    assert!(!within_band(lower, upper, false));
}

#[test]
fn inner_tangency_counts_only_inclusively() {
    // radii 5 and 2, centres 3 apart
    let (lower, upper) = outcomes(5.0, 2.0, (0.0, 0.0), (0.0, 3.0));
    assert_eq!(lower, Some(Ordering::Equal));
    assert!(within_band(lower, upper, true));
    assert!(!within_band(lower, upper, false));
}

#[test]
fn separated_and_penetrating_circles() {
    let (lower, upper) = outcomes(3.0, 4.0, (0.0, 0.0), (8.0, 0.0));
    assert!(!within_band(lower, upper, true));
    let (lower, upper) = outcomes(3.0, 4.0, (0.0, 0.0), (5.0, 0.0));
    assert!(within_band(lower, upper, false));
    let (lower, upper) = outcomes(5.0, 1.0, (0.0, 0.0), (1.0, 0.0));
    assert!(!within_band(lower, upper, true));
}

#[test]
fn nan_position_never_overlaps() {
    let (lower, upper) = outcomes(3.0, 4.0, (f32::NAN, 0.0), (5.0, 0.0));
    assert!(!within_band(lower, upper, true));
    assert!(!within_band(lower, upper, false));
}

#[test]
fn a_body_never_collides_with_itself() {
    let (lower, upper) = outcomes(3.0, 3.0, (0.0, 0.0), (1.0, 0.0));
    assert!(!collision_verdict(7, 7, lower, upper, true));
    assert!(collision_verdict(7, 8, lower, upper, true));
}

#[test]
fn gravity_partners_skip_own_id() {
    let ids: Vec<u32> = vec![4, 9, 2, 9, 5];
    assert_eq!(interaction_partners(9, &ids), vec![0, 2, 4]);
    assert_eq!(interaction_partners(1, &ids), vec![0, 1, 2, 3, 4]);
}

#[test]
fn gravity_partners_of_empty_snapshot() {
    let ids: Vec<u32> = vec![];
    assert_eq!(interaction_partners(3, &ids), Vec::<usize>::new());
    let only_self: Vec<u32> = vec![3];
    assert_eq!(interaction_partners(3, &only_self), Vec::<usize>::new());
}

#[test]
fn two_equal_bodies_five_apart_collide() {
    // mass 50 each, radius sqrt(50), centres 5 apart
    let r = 50.0f32.sqrt();
    let centres = [(0.0f32, 0.0f32), (5.0f32, 0.0f32)];
    let ids: Vec<u32> = vec![0, 1];
    let mut lower = Vec::new();
    let mut upper = Vec::new();
    for c in centres.iter() {
        let (l, u) = outcomes(r, r, centres[0], *c);
        lower.push(l);
        upper.push(u);
    }
    let partners = overlapping_partners(0, &ids, &lower, &upper, true);
    assert_eq!(partners, vec![1]);
    let steps = collision_steps(0, &partners);
    assert_eq!(
        steps,
        vec![
            Action::Resolve { body: 0, other: 1 },
            Action::Integrate { body: 0 },
            Action::Integrate { body: 1 },
            Action::Integrate { body: 0 },
        ]
    );
}

#[test]
fn lone_body_has_no_partners_and_one_integration() {
    let ids: Vec<u32> = vec![0];
    let lower = vec![Some(Ordering::Less)];
    let upper = vec![Some(Ordering::Less)];
    let partners = overlapping_partners(0, &ids, &lower, &upper, true);
    assert!(partners.is_empty());
    assert_eq!(collision_steps(0, &partners), vec![Action::Integrate { body: 0 }]);
    assert!(interaction_partners(0, &ids).is_empty());
}

#[test]
fn overlap_selection_follows_rule_per_entry() {
    let ids: Vec<u32> = vec![1, 2, 3, 4];
    let lower = vec![Some(Ordering::Less), Some(Ordering::Equal), Some(Ordering::Less), None];
    let upper = vec![Some(Ordering::Less), Some(Ordering::Less), Some(Ordering::Equal), Some(Ordering::Less)];
    assert_eq!(overlapping_partners(1, &ids, &lower, &upper, true), vec![1, 2]);
    assert_eq!(overlapping_partners(9, &ids, &lower, &upper, false), vec![0]);
}

#[test]
fn kinematic_or_nan_force_freezes_a_body() {
    assert!(may_integrate(false, false));
    assert!(!may_integrate(true, false));
    assert!(!may_integrate(false, true));
    assert!(!may_integrate(true, true));
}

#[test]
fn correction_stops_at_the_round_cap_or_separation() {
    assert_eq!(CORRECTION_ROUNDS, 100);
    let less = Some(Ordering::Less);
    let equal = Some(Ordering::Equal);
    let greater = Some(Ordering::Greater);
    assert!(continue_correction(0, less, less));
    assert!(continue_correction(99, less, equal));
    assert!(!continue_correction(100, less, less));
    assert!(!continue_correction(3, less, greater));
}

#[test]
fn cursor_holds_the_first_nearest_body_while_pressed() {
    let mut latch = ClickLatch::idle();
    assert_eq!(latch.held_body(), None);
    latch = latch.step(true, Some(2));
    assert_eq!(latch.held_body(), Some(2));
    latch = latch.step(true, Some(5));
    assert_eq!(latch.held_body(), Some(2));
    latch = latch.step(true, Some(0));
    assert_eq!(latch, ClickLatch::Tracking { body: 2 });
    latch = latch.step(false, Some(0));
    assert_eq!(latch, ClickLatch::Idle);
    latch = latch.step(true, None);
    assert_eq!(latch.held_body(), None);
}

#[test]
fn held_body_is_pulled_damped_and_integrated_twice() {
    assert_eq!(
        cursor_steps(Some(3)),
        vec![
            Action::Pull { body: 3 },
            Action::Integrate { body: 3 },
            Action::Damp { body: 3 },
            Action::Integrate { body: 3 },
        ]
    );
    assert!(cursor_steps(None).is_empty());
}

#[test]
fn held_for_three_ticks_is_damped_each_tick() {
    let mut latch = ClickLatch::idle();
    let nearest = [Some(1), Some(4), Some(2)];
    for n in nearest.iter() {
        latch = latch.step(true, *n);
        let steps = cursor_steps(latch.held_body());
        assert!(steps.contains(&Action::Damp { body: 1 }));
    }
}

#[test]
fn several_partners_are_resolved_in_order() {
    let partners: Vec<usize> = vec![3, 1];
    assert_eq!(
        collision_steps(2, &partners),
        vec![
            Action::Resolve { body: 2, other: 3 },
            Action::Integrate { body: 2 },
            Action::Integrate { body: 3 },
            Action::Resolve { body: 2, other: 1 },
            Action::Integrate { body: 2 },
            Action::Integrate { body: 1 },
            Action::Integrate { body: 2 },
        ]
    );
}

#[test]
fn nearest_body_is_first_smallest_distance() {
    let cursor = (1.0f32, 1.0f32);
    let centres = [(10.0f32, 0.0f32), (2.0, 2.0), (0.0, 0.0), (-5.0, 4.0)];
    let keys: Vec<u32> = centres
        .iter()
        .map(|c| ((c.0 - cursor.0) * (c.0 - cursor.0) + (c.1 - cursor.1) * (c.1 - cursor.1)).to_bits())
        .collect();
    assert_eq!(nearest_body(&keys), Some(1));
    assert_eq!(nearest_body(&vec![7, 3, 9, 3]), Some(1));
    assert_eq!(nearest_body(&vec![5]), Some(0));
    assert_eq!(nearest_body(&Vec::new()), None);
}
