use two_bone_ik::bone::Bone;
use two_bone_ik::point::Point;
use two_bone_ik::scalar::{Scalar, PI_BITS, ZERO_BITS};
use two_bone_ik::skeleton::{Plan, Skeleton, MAX_BONES};
use two_bone_ik::solver::Solution;

fn scalar(x: f32) -> Scalar {
    Scalar { bits: x.to_bits() }
}

fn point(x: f32, y: f32) -> Point {
    Point::new(scalar(x), scalar(y))
}

fn bits_of(point: Point) -> (u32, u32) {
    (point.x.bits, point.y.bits)
}

fn pose_bits(skeleton: &Skeleton) -> Vec<(u32, u32)> {
    let mut pose: Vec<(u32, u32)> = Vec::new();
    let mut index: usize = 0;
    while let Some(bone) = skeleton.bone(index) {
        pose.push((bone.length().bits, bone.angle().bits));
        index += 1;
    }
    pose
}

fn two_bones() -> Skeleton {
    let mut skeleton = Skeleton::new(point(10.0, 20.0));
    skeleton.add_bone(scalar(100.0), scalar(0.0), point(0.0, 0.0));
    skeleton.add_bone(scalar(80.0), scalar(0.5), point(110.0, 20.0));
    skeleton
}

#[test]
fn new_chain_is_empty() {
    let skeleton = Skeleton::new(point(10.0, 20.0));
    assert_eq!(skeleton.bone_count(), 0);
    assert_eq!(skeleton.origin(), point(10.0, 20.0));
    assert!(skeleton.bone(0).is_none());
}

#[test]
fn first_bone_starts_at_the_origin() {
    let mut skeleton = Skeleton::new(point(10.0, 20.0));
    skeleton.add_bone(scalar(100.0), scalar(0.25), point(7.0, 7.0));
    assert_eq!(skeleton.bone_count(), 1);
    let first = skeleton.bone(0).unwrap();
    assert_eq!(first, Bone::new(point(10.0, 20.0), scalar(100.0), scalar(0.25)));
    assert!(skeleton.bone(1).is_none());
}

#[test]
fn second_bone_starts_at_the_joint() {
    let skeleton = two_bones();
    assert_eq!(skeleton.bone_count(), 2);
    assert_eq!(skeleton.bone(0).unwrap(), Bone::new(point(10.0, 20.0), scalar(100.0), scalar(0.0)));
    assert_eq!(skeleton.bone(1).unwrap(), Bone::new(point(110.0, 20.0), scalar(80.0), scalar(0.5)));
    assert!(skeleton.bone(2).is_none());
}

#[test]
fn third_bone_is_not_added() {
    let mut skeleton = two_bones();
    let before = pose_bits(&skeleton);
    skeleton.add_bone(scalar(60.0), scalar(1.0), point(1.0, 1.0));
    assert_eq!(skeleton.bone_count(), MAX_BONES);
    assert_eq!(pose_bits(&skeleton), before);
    assert_eq!(skeleton.bone(1).unwrap().start(), point(110.0, 20.0));
}

#[test]
fn bone_without_length_is_not_added() {
    let mut skeleton = Skeleton::new(point(0.0, 0.0));
    skeleton.add_bone(scalar(0.0), scalar(0.0), point(0.0, 0.0));
    assert_eq!(skeleton.bone_count(), 0);
    skeleton.add_bone(scalar(-0.0), scalar(0.0), point(0.0, 0.0));
    assert_eq!(skeleton.bone_count(), 0);
    skeleton.add_bone(scalar(-5.0), scalar(0.0), point(0.0, 0.0));
    assert_eq!(skeleton.bone_count(), 0);
    skeleton.add_bone(scalar(f32::NEG_INFINITY), scalar(0.0), point(0.0, 0.0));
    assert_eq!(skeleton.bone_count(), 0);
    skeleton.add_bone(scalar(f32::MIN_POSITIVE), scalar(0.0), point(0.0, 0.0));
    assert_eq!(skeleton.bone_count(), 1);
}

#[test]
fn length_that_is_no_number_is_not_below_zero() {
    let mut skeleton = Skeleton::new(point(0.0, 0.0));
    skeleton.add_bone(scalar(f32::NAN), scalar(0.0), point(0.0, 0.0));
    assert_eq!(skeleton.bone_count(), 1);
}

#[test]
fn update_of_an_empty_chain_does_nothing() {
    let mut skeleton = Skeleton::new(point(1.0, 2.0));
    skeleton.update(Solution::Aim { distance: scalar(50.0), bearing: scalar(1.0) });
    skeleton.update(Solution::Reach {
        span: scalar(50.0),
        first: scalar(1.0),
        second: scalar(2.0),
        joint: point(3.0, 4.0),
    });
    assert_eq!(skeleton.bone_count(), 0);
    assert_eq!(skeleton.origin(), point(1.0, 2.0));
}

#[test]
fn one_bone_turns_to_a_target_beyond_the_tolerance() {
    let mut skeleton = Skeleton::new(point(10.0, 20.0));
    skeleton.add_bone(scalar(100.0), scalar(0.25), point(0.0, 0.0));
    skeleton.update(Solution::Aim { distance: scalar(0.002), bearing: scalar(-2.0) });
    let bone = skeleton.bone(0).unwrap();
    assert_eq!(bone.angle().bits, (-2.0f32).to_bits());
    assert_eq!(bone.length().bits, 100.0f32.to_bits());
    assert_eq!(bits_of(bone.start()), bits_of(point(10.0, 20.0)));
}

#[test]
fn one_bone_keeps_its_angle_for_a_target_within_the_tolerance() {
    for distance in [0.0f32, 0.000_5, 0.001, f32::NAN] {
        let mut skeleton = Skeleton::new(point(10.0, 20.0));
        skeleton.add_bone(scalar(100.0), scalar(0.25), point(0.0, 0.0));
        skeleton.update(Solution::Aim { distance: scalar(distance), bearing: scalar(-2.0) });
        let bone = skeleton.bone(0).unwrap();
        assert_eq!(bone.angle().bits, 0.25f32.to_bits(), "distance {distance}");
        assert_eq!(bits_of(bone.start()), bits_of(point(10.0, 20.0)));
    }
}

#[test]
fn two_bones_take_the_angles_of_a_reach() {
    let mut skeleton = two_bones();
    skeleton.update(Solution::Reach {
        span: scalar(120.0),
        first: scalar(-0.7),
        second: scalar(0.9),
        joint: point(86.0, -44.0),
    });
    assert_eq!(skeleton.bone(0).unwrap(), Bone::new(point(10.0, 20.0), scalar(100.0), scalar(-0.7)));
    assert_eq!(skeleton.bone(1).unwrap(), Bone::new(point(86.0, -44.0), scalar(80.0), scalar(0.9)));
}

#[test]
fn two_bones_fold_for_a_span_below_the_tolerance() {
    for span in [0.0f32, -0.0, 0.000_5] {
        let mut skeleton = two_bones();
        skeleton.update(Solution::Reach {
            span: scalar(span),
            first: scalar(-0.7),
            second: scalar(0.9),
            joint: point(110.0, 20.0),
        });
        let first = skeleton.bone(0).unwrap();
        let second = skeleton.bone(1).unwrap();
        assert_eq!(first.angle().bits, ZERO_BITS);
        assert_eq!(second.angle().bits, PI_BITS);
        assert_eq!(f32::from_bits(second.angle().bits), std::f32::consts::PI);
        assert_eq!(first.length().bits, 100.0f32.to_bits());
        assert_eq!(second.length().bits, 80.0f32.to_bits());
        assert_eq!(bits_of(second.start()), bits_of(point(110.0, 20.0)));
    }
}

#[test]
fn solution_of_the_other_kind_changes_nothing() {
    let mut one = Skeleton::new(point(10.0, 20.0));
    one.add_bone(scalar(100.0), scalar(0.25), point(0.0, 0.0));
    one.update(Solution::Reach {
        span: scalar(50.0),
        first: scalar(1.0),
        second: scalar(2.0),
        joint: point(3.0, 4.0),
    });
    assert_eq!(pose_bits(&one), vec![(100.0f32.to_bits(), 0.25f32.to_bits())]);

    let mut two = two_bones();
    let before = pose_bits(&two);
    two.update(Solution::Aim { distance: scalar(50.0), bearing: scalar(1.0) });
    assert_eq!(pose_bits(&two), before);
    assert_eq!(bits_of(two.bone(1).unwrap().start()), bits_of(point(110.0, 20.0)));
}

#[test]
fn update_twice_is_update_once() {
    let solutions = [
        Solution::Aim { distance: scalar(50.0), bearing: scalar(1.0) },
        Solution::Aim { distance: scalar(0.0), bearing: scalar(1.0) },
        Solution::Reach {
            span: scalar(120.0),
            first: scalar(-0.7),
            second: scalar(0.9),
            joint: point(86.0, -44.0),
        },
        Solution::Reach {
            span: scalar(0.0),
            first: scalar(-0.7),
            second: scalar(0.9),
            joint: point(110.0, 20.0),
        },
    ];
    for solution in solutions {
        let mut one = Skeleton::new(point(10.0, 20.0));
        one.add_bone(scalar(100.0), scalar(0.25), point(0.0, 0.0));
        for mut skeleton in [Skeleton::new(point(0.0, 0.0)), one, two_bones()] {
            skeleton.update(solution);
            let once = skeleton.clone();
            skeleton.update(solution);
            assert_eq!(pose_bits(&skeleton), pose_bits(&once));
            assert_eq!(skeleton.bone_count(), once.bone_count());
            let mut index: usize = 0;
            while let Some(bone) = skeleton.bone(index) {
                assert_eq!(bits_of(bone.start()), bits_of(once.bone(index).unwrap().start()));
                index += 1;
            }
        }
    }
}

#[test]
fn set_origin_moves_the_starts_only() {
    let mut skeleton = two_bones();
    let before = pose_bits(&skeleton);
    skeleton.set_origin(point(-5.0, 7.5), point(95.0, 7.5));
    assert_eq!(skeleton.origin(), point(-5.0, 7.5));
    assert_eq!(skeleton.bone_count(), 2);
    assert_eq!(pose_bits(&skeleton), before);
    assert_eq!(bits_of(skeleton.bone(0).unwrap().start()), bits_of(point(-5.0, 7.5)));
    assert_eq!(bits_of(skeleton.bone(1).unwrap().start()), bits_of(point(95.0, 7.5)));
}

#[test]
fn set_origin_of_one_bone_ignores_the_joint() {
    let mut skeleton = Skeleton::new(point(10.0, 20.0));
    skeleton.add_bone(scalar(100.0), scalar(0.25), point(0.0, 0.0));
    skeleton.set_origin(point(1.0, 2.0), point(99.0, 99.0));
    assert_eq!(skeleton.bone(0).unwrap(), Bone::new(point(1.0, 2.0), scalar(100.0), scalar(0.25)));
}

#[test]
fn set_origin_of_an_empty_chain_moves_the_origin() {
    let mut skeleton = Skeleton::new(point(10.0, 20.0));
    skeleton.set_origin(point(1.0, 2.0), point(99.0, 99.0));
    assert_eq!(skeleton.origin(), point(1.0, 2.0));
    assert_eq!(skeleton.bone_count(), 0);
    skeleton.add_bone(scalar(50.0), scalar(0.0), point(99.0, 99.0));
    assert_eq!(bits_of(skeleton.bone(0).unwrap().start()), bits_of(point(1.0, 2.0)));
}

#[test]
fn clone_is_a_chain_of_its_own() {
    let skeleton = two_bones();
    let mut copy = skeleton.clone();
    copy.set_origin(point(0.0, 0.0), point(100.0, 0.0));
    assert_eq!(skeleton.origin(), point(10.0, 20.0));
    assert_eq!(copy.origin(), point(0.0, 0.0));
    assert_eq!(pose_bits(&skeleton), pose_bits(&copy));
}

#[test]
fn plan_goes_by_the_number_of_bones() {
    let mut skeleton = Skeleton::new(point(10.0, 20.0));
    assert!(matches!(skeleton.plan(), Plan::Rest));
    skeleton.add_bone(scalar(100.0), scalar(0.0), point(0.0, 0.0));
    assert!(matches!(skeleton.plan(), Plan::Aim));
    skeleton.add_bone(scalar(80.0), scalar(0.5), point(110.0, 20.0));
    match skeleton.plan() {
        Plan::Reach { first, second } => {
            assert_eq!(first.bits, 100.0f32.to_bits());
            assert_eq!(second.bits, 80.0f32.to_bits());
        },
        _ => panic!("a chain of two bones should ask for a reach"),
    }
}
