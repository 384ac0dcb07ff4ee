use rail_2d::distance::MAX_DISTANCE;
use rail_2d::error::RailError;
use rail_2d::error::ValidationWarning;
use rail_2d::rail::BakedCurve;
use rail_2d::rail::RailId;
use rail_2d::rail::RailNetwork;
use rail_2d::rail_follower::PoseUpdate;
use rail_2d::rail_follower::ProgressReport;
use rail_2d::rail_follower::RailFollower2D;
use rail_2d::rail_follower::Ratio;
use rail_2d::rail_follower::Sample;

fn baked(points: usize, length: i64) -> Option<BakedCurve> {
    Some(BakedCurve::new(points, length).unwrap())
}

/// A (length 10) with north link B; B (length 5) with south link A.
fn pair() -> (RailNetwork, RailId, RailId) {
    let mut network = RailNetwork::new();
    let a = network.add_rail(baked(2, 10));
    let b = network.add_rail(baked(2, 5));
    network.set_north_link(a, Some(b));
    network.set_south_link(b, Some(a));
    (network, a, b)
}

fn single(length: i64) -> (RailNetwork, RailId) {
    let mut network = RailNetwork::new();
    let a = network.add_rail(baked(2, length));
    (network, a)
}

fn follower_on(network: &RailNetwork, rail: RailId) -> RailFollower2D {
    let mut follower = RailFollower2D::init();
    follower.set_rail(network, Some(rail));
    follower
}

fn sample(rail: RailId, progress: i64) -> Sample {
    Sample {
        rail,
        progress,
        cubic: true,
        h_offset: 0,
        v_offset: 0,
    }
}

#[test]
fn new_follower_defaults() {
    let follower = RailFollower2D::init();
    assert_eq!(follower.get_rail(), None);
    assert_eq!(follower.get_progress(), 0);
    assert_eq!(follower.get_h_offset(), 0);
    assert_eq!(follower.get_v_offset(), 0);
    assert!(follower.get_use_cubic_interpolation());
    assert!(follower.get_rotation_enabled());
}

#[test]
fn overshoot_hops_north() {
    let (network, a, b) = pair();
    let mut follower = follower_on(&network, a);
    let report = follower.set_progress(&network, 12).unwrap();
    assert_eq!(follower.get_rail(), Some(b));
    assert_eq!(follower.get_progress(), 2);
    assert_eq!(
        report,
        ProgressReport {
            hopped: true,
            warning: None,
            pose: PoseUpdate::PositionAndRotation(sample(b, 2)),
        }
    );
}

#[test]
fn undershoot_hops_south() {
    let (network, a, b) = pair();
    let mut follower = follower_on(&network, b);
    let report = follower.set_progress(&network, -3).unwrap();
    assert_eq!(follower.get_rail(), Some(a));
    assert_eq!(follower.get_progress(), 7);
    assert_eq!(
        report,
        ProgressReport {
            hopped: true,
            warning: None,
            pose: PoseUpdate::PositionAndRotation(sample(a, 7)),
        }
    );
}

#[test]
fn unlinked_overshoot_clamps_and_warns() {
    let (network, a) = single(10);
    let mut follower = follower_on(&network, a);
    let report = follower.set_progress(&network, 15).unwrap();
    assert_eq!(follower.get_rail(), Some(a));
    assert_eq!(follower.get_progress(), 10);
    assert_eq!(
        report,
        ProgressReport {
            hopped: false,
            warning: Some(ValidationWarning::HopFailed),
            pose: PoseUpdate::PositionAndRotation(sample(a, 10)),
        }
    );
}

#[test]
fn unlinked_rail_clamps_every_value() {
    let (network, a) = single(10);
    let values: Vec<(i64, i64)> = vec![
        (-MAX_DISTANCE, 0),
        (-11, 0),
        (-1, 0),
        (0, 0),
        (1, 1),
        (9, 9),
        (10, 10),
        (11, 10),
        (MAX_DISTANCE, 10),
    ];
    for (value, expected) in values {
        let mut follower = follower_on(&network, a);
        let report = follower.set_progress(&network, value).unwrap();
        assert_eq!(follower.get_progress(), expected);
        assert_eq!(follower.get_rail(), Some(a));
        assert!(!report.hopped);
        assert_eq!(
            report.warning,
            if value == expected {
                None
            } else {
                Some(ValidationWarning::HopFailed)
            }
        );
    }
}

#[test]
fn value_within_bounds_is_stored() {
    let (network, a, _) = pair();
    let mut follower = follower_on(&network, a);
    for value in [0, 4, 10] {
        let report = follower.set_progress(&network, value).unwrap();
        assert_eq!(follower.get_progress(), value);
        assert_eq!(follower.get_rail(), Some(a));
        assert_eq!(
            report,
            ProgressReport {
                hopped: false,
                warning: None,
                pose: PoseUpdate::PositionAndRotation(sample(a, value)),
            }
        );
    }
}

#[test]
fn hop_goes_by_direction_only() {
    let (network, a, b) = pair();
    let mut follower = follower_on(&network, a);
    let report = follower.set_progress(&network, -1).unwrap();
    assert_eq!(follower.get_rail(), Some(a));
    assert_eq!(follower.get_progress(), 0);
    assert_eq!(report.warning, Some(ValidationWarning::HopFailed));
    let mut follower = follower_on(&network, b);
    let report = follower.set_progress(&network, 6).unwrap();
    assert_eq!(follower.get_rail(), Some(b));
    assert_eq!(follower.get_progress(), 5);
    assert_eq!(report.warning, Some(ValidationWarning::HopFailed));
    assert!(!report.hopped);
}

#[test]
fn one_hop_only_going_north() {
    let mut network = RailNetwork::new();
    let a = network.add_rail(baked(2, 10));
    let b = network.add_rail(baked(2, 5));
    let c = network.add_rail(baked(2, 5));
    network.set_north_link(a, Some(b));
    network.set_north_link(b, Some(c));
    let mut follower = follower_on(&network, a);
    let report = follower.set_progress(&network, 18).unwrap();
    assert_eq!(follower.get_rail(), Some(b));
    assert_eq!(follower.get_progress(), 8);
    assert!(report.hopped);
    assert_eq!(report.warning, None);
    let report = follower.set_progress(&network, 8).unwrap();
    assert_eq!(follower.get_rail(), Some(c));
    assert_eq!(follower.get_progress(), 3);
    assert!(report.hopped);
}

#[test]
fn one_hop_only_going_south() {
    let mut network = RailNetwork::new();
    let a = network.add_rail(baked(2, 10));
    let b = network.add_rail(baked(2, 5));
    let c = network.add_rail(baked(2, 5));
    network.set_south_link(c, Some(b));
    network.set_south_link(b, Some(a));
    let mut follower = follower_on(&network, c);
    follower.set_progress(&network, -7).unwrap();
    assert_eq!(follower.get_rail(), Some(b));
    assert_eq!(follower.get_progress(), -2);
    follower.set_progress(&network, -2).unwrap();
    assert_eq!(follower.get_rail(), Some(a));
    assert_eq!(follower.get_progress(), 8);
}

#[test]
fn cycle_of_two_rails_is_followed() {
    let mut network = RailNetwork::new();
    let a = network.add_rail(baked(2, 10));
    let b = network.add_rail(baked(2, 5));
    network.set_north_link(a, Some(b));
    network.set_north_link(b, Some(a));
    let mut follower = follower_on(&network, a);
    follower.set_progress(&network, 11).unwrap();
    assert_eq!((follower.get_rail(), follower.get_progress()), (Some(b), 1));
    follower.set_progress(&network, 9).unwrap();
    assert_eq!((follower.get_rail(), follower.get_progress()), (Some(a), 4));
}

#[test]
fn rail_linked_to_itself_wraps_around() {
    let mut network = RailNetwork::new();
    let a = network.add_rail(baked(2, 10));
    network.set_north_link(a, Some(a));
    network.set_south_link(a, Some(a));
    let mut follower = follower_on(&network, a);
    let report = follower.set_progress(&network, 13).unwrap();
    assert_eq!((follower.get_rail(), follower.get_progress()), (Some(a), 3));
    assert!(report.hopped);
    follower.set_progress(&network, -4).unwrap();
    assert_eq!((follower.get_rail(), follower.get_progress()), (Some(a), 6));
}

#[test]
fn neighbor_without_valid_curve_is_no_target() {
    let mut network = RailNetwork::new();
    let a = network.add_rail(baked(2, 10));
    let b = network.add_rail(baked(1, 0));
    let c = network.add_rail(None);
    network.set_north_link(a, Some(b));
    network.set_south_link(a, Some(c));
    let mut follower = follower_on(&network, a);
    assert_eq!(follower.get_next_rail_in_direction(&network, 12), Some(b));
    assert_eq!(follower.get_next_rail_in_direction(&network, -2), Some(c));
    assert!(!follower.can_progress(&network, 12));
    assert!(!follower.can_progress(&network, -2));
    let report = follower.set_progress(&network, 12).unwrap();
    assert_eq!((follower.get_rail(), follower.get_progress()), (Some(a), 10));
    assert_eq!(report.warning, Some(ValidationWarning::HopFailed));
    assert!(!report.hopped);
    let report = follower.set_progress(&network, -2).unwrap();
    assert_eq!((follower.get_rail(), follower.get_progress()), (Some(a), 0));
    assert_eq!(report.warning, Some(ValidationWarning::HopFailed));
}

#[test]
fn dangling_link_is_no_target() {
    let (mut network, a, b) = pair();
    network.remove_rail(b);
    let mut follower = follower_on(&network, a);
    assert_eq!(follower.get_next_rail_in_direction(&network, 12), Some(b));
    assert!(!follower.can_progress(&network, 12));
    let report = follower.set_progress(&network, 12).unwrap();
    assert_eq!((follower.get_rail(), follower.get_progress()), (Some(a), 10));
    assert_eq!(report.warning, Some(ValidationWarning::HopFailed));
}

#[test]
fn follower_on_no_rail_stores_the_value() {
    let (network, _, _) = pair();
    let mut follower = RailFollower2D::init();
    let report = follower.set_progress(&network, 1234).unwrap();
    assert_eq!(follower.get_progress(), 1234);
    assert_eq!(follower.get_rail(), None);
    assert_eq!(
        report,
        ProgressReport {
            hopped: false,
            warning: None,
            pose: PoseUpdate::Unchanged,
        }
    );
    follower.set_progress(&network, -99).unwrap();
    assert_eq!(follower.get_progress(), -99);
}

#[test]
fn follower_on_a_removed_rail_stores_the_value() {
    let (mut network, a, b) = pair();
    let mut follower = follower_on(&network, a);
    network.remove_rail(a);
    let report = follower.set_progress(&network, 12).unwrap();
    assert_eq!((follower.get_rail(), follower.get_progress()), (Some(a), 12));
    assert_eq!(report.warning, None);
    assert_eq!(report.pose, PoseUpdate::Unchanged);
    assert!(network.contains(b));
}

#[test]
fn follower_on_an_invalid_curve_stores_the_value() {
    let mut network = RailNetwork::new();
    let a = network.add_rail(baked(1, 10));
    let b = network.add_rail(baked(2, 5));
    network.set_north_link(a, Some(b));
    let mut follower = follower_on(&network, a);
    let report = follower.set_progress(&network, 12).unwrap();
    assert_eq!((follower.get_rail(), follower.get_progress()), (Some(a), 12));
    assert_eq!(
        report,
        ProgressReport {
            hopped: false,
            warning: None,
            pose: PoseUpdate::Unchanged,
        }
    );
}

#[test]
fn progress_that_is_not_finite_is_refused() {
    let (network, a, _) = pair();
    let mut follower = follower_on(&network, a);
    follower.set_progress(&network, 4).unwrap();
    let before = follower;
    for value in [MAX_DISTANCE + 1, -MAX_DISTANCE - 1, i64::MAX, i64::MIN] {
        assert_eq!(
            follower.set_progress(&network, value),
            Err(RailError::InvariantViolation)
        );
        assert_eq!(follower, before);
    }
}

#[test]
fn largest_finite_values_are_accepted() {
    let mut network = RailNetwork::new();
    let a = network.add_rail(baked(2, MAX_DISTANCE));
    let b = network.add_rail(baked(2, MAX_DISTANCE));
    network.set_south_link(a, Some(b));
    let mut follower = follower_on(&network, a);
    follower.set_progress(&network, MAX_DISTANCE).unwrap();
    assert_eq!((follower.get_rail(), follower.get_progress()), (Some(a), MAX_DISTANCE));
    follower.set_progress(&network, -MAX_DISTANCE).unwrap();
    assert_eq!((follower.get_rail(), follower.get_progress()), (Some(b), 0));
    follower.set_progress(&network, -1).unwrap();
    assert_eq!((follower.get_rail(), follower.get_progress()), (Some(b), 0));
}

#[test]
fn advance_adds_to_the_progress() {
    let (network, a, b) = pair();
    let mut follower = follower_on(&network, a);
    follower.advance_progress(&network, 4).unwrap();
    assert_eq!((follower.get_rail(), follower.get_progress()), (Some(a), 4));
    follower.advance_progress(&network, 5).unwrap();
    assert_eq!((follower.get_rail(), follower.get_progress()), (Some(a), 9));
    let report = follower.advance_progress(&network, 3).unwrap();
    assert_eq!((follower.get_rail(), follower.get_progress()), (Some(b), 2));
    assert!(report.hopped);
    let report = follower.advance_progress(&network, -6).unwrap();
    assert_eq!((follower.get_rail(), follower.get_progress()), (Some(a), 6));
    assert!(report.hopped);
    let report = follower.advance_progress(&network, -20).unwrap();
    assert_eq!((follower.get_rail(), follower.get_progress()), (Some(a), 0));
    assert_eq!(report.warning, Some(ValidationWarning::HopFailed));
}

#[test]
fn advance_past_the_finite_range_is_refused() {
    let (network, a, _) = pair();
    let mut follower = follower_on(&network, a);
    follower.set_progress(&network, 3).unwrap();
    let before = follower;
    for amount in [MAX_DISTANCE - 2, i64::MAX, i64::MIN, -MAX_DISTANCE - 4] {
        assert_eq!(
            follower.advance_progress(&network, amount),
            Err(RailError::InvariantViolation)
        );
        assert_eq!(follower, before);
    }
    assert!(follower.advance_progress(&network, MAX_DISTANCE - 3).is_ok());
}

#[test]
fn can_progress_within_bounds_or_with_a_target() {
    let (network, a, b) = pair();
    let on_a = follower_on(&network, a);
    assert!(on_a.can_progress(&network, 0));
    assert!(on_a.can_progress(&network, 10));
    assert!(on_a.can_progress(&network, 11));
    assert!(on_a.can_progress(&network, i64::MAX));
    assert!(!on_a.can_progress(&network, -1));
    assert!(!on_a.can_progress(&network, i64::MIN));
    let on_b = follower_on(&network, b);
    assert!(on_b.can_progress(&network, 5));
    assert!(!on_b.can_progress(&network, 6));
    assert!(on_b.can_progress(&network, -1));
}

#[test]
fn can_progress_needs_a_rail_with_a_curve() {
    let mut network = RailNetwork::new();
    let none = network.add_rail(None);
    let free = RailFollower2D::init();
    assert!(!free.can_progress(&network, 0));
    assert!(!follower_on(&network, none).can_progress(&network, 0));
    assert!(!follower_on(&network, RailId(17)).can_progress(&network, 0));
    assert!(!free.can_advance_progress(&network, 0));
    assert!(!follower_on(&network, none).can_advance_progress(&network, 0));
}

#[test]
fn can_progress_within_bounds_asks_nothing_of_the_points() {
    let mut network = RailNetwork::new();
    let a = network.add_rail(baked(1, 10));
    let b = network.add_rail(baked(2, 5));
    let point = network.add_rail(baked(1, 0));
    network.set_north_link(a, Some(b));
    network.set_south_link(a, Some(b));
    let on_a = follower_on(&network, a);
    assert!(on_a.can_progress(&network, 0));
    assert!(on_a.can_progress(&network, 5));
    assert!(on_a.can_progress(&network, 10));
    assert!(!on_a.can_progress(&network, 11));
    assert!(!on_a.can_progress(&network, -1));
    assert!(on_a.can_advance_progress(&network, 10));
    assert!(!on_a.can_advance_progress(&network, 11));
    let on_point = follower_on(&network, point);
    assert!(on_point.can_progress(&network, 0));
    assert!(!on_point.can_progress(&network, 1));
}

#[test]
fn can_progress_changes_nothing() {
    let (network, a, _) = pair();
    let mut follower = follower_on(&network, a);
    follower.set_progress(&network, 4).unwrap();
    let before = follower;
    assert!(follower.can_progress(&network, 12));
    assert!(follower.can_advance_progress(&network, 8));
    assert_eq!(follower, before);
}

#[test]
fn can_advance_counts_from_the_progress() {
    let (network, a, b) = pair();
    let mut follower = follower_on(&network, a);
    follower.set_progress(&network, 4).unwrap();
    assert!(follower.can_advance_progress(&network, 6));
    assert!(follower.can_advance_progress(&network, 7));
    assert!(follower.can_advance_progress(&network, -4));
    assert!(!follower.can_advance_progress(&network, -5));
    assert!(follower.can_advance_progress(&network, i64::MAX));
    assert!(!follower.can_advance_progress(&network, i64::MIN));
    let mut follower = follower_on(&network, b);
    follower.set_progress(&network, 5).unwrap();
    assert!(!follower.can_advance_progress(&network, 1));
    assert!(follower.can_advance_progress(&network, -6));
}

#[test]
fn can_progress_agrees_with_hop_failure() {
    let (network, a, b) = pair();
    for start in [a, b] {
        for value in -8..18 {
            let mut follower = follower_on(&network, start);
            let can = follower.can_progress(&network, value);
            let report = follower.set_progress(&network, value).unwrap();
            assert_eq!(can, report.warning.is_none());
        }
    }
}

#[test]
fn next_rail_is_the_link_as_it_is_set() {
    let mut network = RailNetwork::new();
    let a = network.add_rail(baked(1, 2));
    let b = network.add_rail(baked(2, 5));
    let bare = network.add_rail(None);
    network.set_north_link(a, Some(b));
    network.set_south_link(a, Some(RailId(40)));
    network.set_north_link(bare, Some(b));
    network.set_south_link(bare, Some(b));
    let on_a = follower_on(&network, a);
    assert_eq!(on_a.get_next_rail_in_direction(&network, 3), Some(b));
    assert_eq!(on_a.get_next_rail_in_direction(&network, i64::MAX), Some(b));
    assert_eq!(on_a.get_next_rail_in_direction(&network, -1), Some(RailId(40)));
    assert_eq!(on_a.get_next_rail_in_direction(&network, i64::MIN), Some(RailId(40)));
    assert_eq!(on_a.get_next_rail_in_direction(&network, 0), None);
    assert_eq!(on_a.get_next_rail_in_direction(&network, 2), None);
    let on_bare = follower_on(&network, bare);
    assert_eq!(on_bare.get_next_rail_in_direction(&network, 3), None);
    assert_eq!(on_bare.get_next_rail_in_direction(&network, -3), None);
    let gone = follower_on(&network, RailId(9));
    assert_eq!(gone.get_next_rail_in_direction(&network, 3), None);
    let before = on_a;
    let _ = on_a.get_next_rail_in_direction(&network, 3);
    assert_eq!(on_a, before);
}

#[test]
fn next_rail_in_direction() {
    let (network, a, b) = pair();
    let on_a = follower_on(&network, a);
    assert_eq!(on_a.get_next_rail_in_direction(&network, 11), Some(b));
    assert_eq!(on_a.get_next_rail_in_direction(&network, 10), None);
    assert_eq!(on_a.get_next_rail_in_direction(&network, 0), None);
    assert_eq!(on_a.get_next_rail_in_direction(&network, -1), None);
    let on_b = follower_on(&network, b);
    assert_eq!(on_b.get_next_rail_in_direction(&network, -1), Some(a));
    assert_eq!(on_b.get_next_rail_in_direction(&network, 6), None);
    assert_eq!(
        RailFollower2D::init().get_next_rail_in_direction(&network, 6),
        None
    );
}

#[test]
fn ratio_is_progress_over_length() {
    let (network, a, _) = pair();
    let mut follower = follower_on(&network, a);
    follower.set_progress(&network, 4).unwrap();
    let ratio = follower.get_progress_ratio(&network);
    assert_eq!(
        ratio,
        Ratio {
            numerator: 4,
            denominator: 10
        }
    );
    assert_eq!(ratio.numerator * 10, follower.get_progress() * ratio.denominator);
    let as_float = ratio.numerator as f64 / ratio.denominator as f64;
    assert!((as_float * 10.0 - 4.0).abs() < 1e-9);
}

#[test]
fn ratio_times_length_is_progress_along_the_rail() {
    let (network, a) = single(7);
    for progress in 0..=7 {
        let mut follower = follower_on(&network, a);
        follower.set_progress(&network, progress).unwrap();
        let ratio = follower.get_progress_ratio(&network);
        assert!(ratio.denominator > 0);
        assert_eq!(ratio.numerator * 7, progress * ratio.denominator);
    }
}

#[test]
fn ratio_is_zero_without_a_length() {
    let zero = Ratio {
        numerator: 0,
        denominator: 1,
    };
    let mut network = RailNetwork::new();
    let empty = network.add_rail(baked(2, 0));
    let invalid = network.add_rail(baked(1, 10));
    let bare = network.add_rail(None);
    assert_eq!(RailFollower2D::init().get_progress_ratio(&network), zero);
    assert_eq!(follower_on(&network, empty).get_progress_ratio(&network), zero);
    assert_eq!(follower_on(&network, bare).get_progress_ratio(&network), zero);
    assert_eq!(
        follower_on(&network, RailId(9)).get_progress_ratio(&network),
        zero
    );
    let mut follower = follower_on(&network, invalid);
    follower.set_progress(&network, 5).unwrap();
    assert_eq!(follower.get_progress_ratio(&network), zero);
}

#[test]
fn ratio_may_leave_the_unit_range() {
    let mut network = RailNetwork::new();
    let a = network.add_rail(baked(2, 10));
    let b = network.add_rail(baked(2, 5));
    network.set_north_link(a, Some(b));
    let mut follower = follower_on(&network, a);
    follower.set_progress(&network, 18).unwrap();
    assert_eq!(
        follower.get_progress_ratio(&network),
        Ratio {
            numerator: 8,
            denominator: 5
        }
    );
}

#[test]
fn set_rail_keeps_the_progress() {
    let (network, a, b) = pair();
    let mut follower = follower_on(&network, a);
    follower.set_progress(&network, 9).unwrap();
    let pose = follower.set_rail(&network, Some(b));
    assert_eq!((follower.get_rail(), follower.get_progress()), (Some(b), 9));
    assert_eq!(pose, PoseUpdate::PositionAndRotation(sample(b, 9)));
    let pose = follower.set_rail(&network, None);
    assert_eq!((follower.get_rail(), follower.get_progress()), (None, 9));
    assert_eq!(pose, PoseUpdate::Unchanged);
}

#[test]
fn pose_is_unchanged_without_something_to_sample() {
    let mut network = RailNetwork::new();
    let empty = network.add_rail(baked(2, 0));
    let invalid = network.add_rail(baked(1, 10));
    let bare = network.add_rail(None);
    assert_eq!(
        RailFollower2D::init().update_transform(&network),
        PoseUpdate::Unchanged
    );
    for rail in [empty, invalid, bare, RailId(30)] {
        assert_eq!(
            follower_on(&network, rail).update_transform(&network),
            PoseUpdate::Unchanged
        );
    }
}

#[test]
fn pose_follows_rotation_and_offsets() {
    let (network, a, _) = pair();
    let mut follower = follower_on(&network, a);
    follower.set_progress(&network, 6).unwrap();
    follower.set_use_cubic_interpolation(false);
    let pose = follower.set_h_offset(&network, 3);
    let expected = Sample {
        rail: a,
        progress: 6,
        cubic: false,
        h_offset: 3,
        v_offset: 0,
    };
    assert_eq!(pose, PoseUpdate::PositionAndRotation(expected));
    let pose = follower.set_v_offset(&network, -2);
    let expected = Sample {
        v_offset: -2,
        ..expected
    };
    assert_eq!(pose, PoseUpdate::PositionAndRotation(expected));
    let pose = follower.set_rotation_enabled(&network, false);
    assert_eq!(pose, PoseUpdate::Position(expected));
    assert_eq!(follower.update_transform(&network), PoseUpdate::Position(expected));
    assert_eq!(follower.get_h_offset(), 3);
    assert_eq!(follower.get_v_offset(), -2);
    assert!(!follower.get_rotation_enabled());
    assert!(!follower.get_use_cubic_interpolation());
    assert_eq!(follower.get_progress(), 6);
    let pose = follower.set_rotation_enabled(&network, true);
    assert_eq!(pose, PoseUpdate::PositionAndRotation(expected));
}

#[test]
fn pose_can_be_asked_for_again() {
    let (network, a, _) = pair();
    let mut follower = follower_on(&network, a);
    follower.set_progress(&network, 6).unwrap();
    let first = follower.update_transform(&network);
    let second = follower.update_transform(&network);
    assert_eq!(first, second);
    assert_eq!(first, PoseUpdate::PositionAndRotation(sample(a, 6)));
}

#[test]
fn pose_after_a_hop_that_overshoots_again() {
    let mut network = RailNetwork::new();
    let a = network.add_rail(baked(2, 10));
    let b = network.add_rail(baked(2, 5));
    network.set_north_link(a, Some(b));
    let mut follower = follower_on(&network, a);
    let report = follower.set_progress(&network, 18).unwrap();
    assert_eq!(report.pose, PoseUpdate::PositionAndRotation(sample(b, 8)));
}

#[test]
fn followed_curve_is_that_of_the_current_rail() {
    let mut network = RailNetwork::new();
    let a = network.add_rail(baked(1, 3));
    let bare = network.add_rail(None);
    assert_eq!(RailFollower2D::init().get_followed_curve(&network), None);
    assert_eq!(follower_on(&network, a).get_followed_curve(&network), baked(1, 3));
    assert_eq!(follower_on(&network, bare).get_followed_curve(&network), None);
    assert_eq!(
        follower_on(&network, RailId(8)).get_followed_curve(&network),
        None
    );
}

#[test]
fn follower_warns_without_a_rail_in_the_network() {
    let (mut network, a, _) = pair();
    let message = "A RailFollower2D needs to point at a valid Rai2D instance".to_string();
    assert_eq!(
        RailFollower2D::init().get_configuration_warnings(&network),
        vec![message.clone()]
    );
    let follower = follower_on(&network, a);
    assert_eq!(
        follower.get_configuration_warnings(&network),
        Vec::<String>::new()
    );
    network.remove_rail(a);
    assert_eq!(follower.get_configuration_warnings(&network), vec![message]);
}

#[test]
fn follower_on_a_rail_without_curve_does_not_warn() {
    let mut network = RailNetwork::new();
    let bare = network.add_rail(None);
    assert_eq!(
        follower_on(&network, bare).get_configuration_warnings(&network),
        Vec::<String>::new()
    );
}
