use vox_core::render::face::FaceDirection as FaceModelDirection;
use vox_core::render::face_direction::FaceDirection;
use vox_core::render::face_orientation::FaceOrientation;
use vox_core::render::quad_orientation::QuadOrientation;

#[test]
fn face_orientation_round_trips_through_bgm_group() {
    for i in 0..6usize {
        let o = FaceOrientation::from_bgm(i);
        assert_eq!(o.index() as usize, i);
    }
}

#[test]
fn face_orientation_group_order() {
    assert_eq!(FaceOrientation::from_bgm(0), FaceOrientation::UP);
    assert_eq!(FaceOrientation::from_bgm(1), FaceOrientation::DOWN);
    assert_eq!(FaceOrientation::from_bgm(2), FaceOrientation::RIGHT);
    assert_eq!(FaceOrientation::from_bgm(3), FaceOrientation::LEFT);
    assert_eq!(FaceOrientation::from_bgm(4), FaceOrientation::FRONT);
    assert_eq!(FaceOrientation::from_bgm(5), FaceOrientation::BACK);
    assert_eq!(FaceOrientation::BACK.index(), 5);
    assert_eq!(FaceOrientation::RIGHT.index(), 2);
}

#[test]
fn face_direction_round_trips_through_bgm_group() {
    for i in 0..6usize {
        let d = FaceDirection::from_bgm(i);
        assert_eq!(FaceDirection::to_index(d) as usize, i);
    }
    assert!(matches!(FaceDirection::from_bgm(2), FaceDirection::RIGHT));
    assert!(matches!(FaceDirection::from_bgm(3), FaceDirection::LEFT));
    assert_eq!(FaceDirection::to_index(FaceDirection::LEFT), 3);
}

#[test]
fn quad_orientation_round_trips_through_bgm_group() {
    for i in 0..6usize {
        let d = QuadOrientation::from_bgm(i);
        assert_eq!(QuadOrientation::to_index(d) as usize, i);
    }
    assert!(matches!(QuadOrientation::from_bgm(4), QuadOrientation::FRONT));
    assert_eq!(QuadOrientation::to_index(QuadOrientation::UP), 0);
}

#[test]
fn face_model_direction_from_bgm() {
    assert!(matches!(FaceModelDirection::from_bgm(0), FaceModelDirection::UP));
    assert!(matches!(FaceModelDirection::from_bgm(1), FaceModelDirection::DOWN));
    assert!(matches!(FaceModelDirection::from_bgm(2), FaceModelDirection::RIGHT));
    assert!(matches!(FaceModelDirection::from_bgm(3), FaceModelDirection::LEFT));
    assert!(matches!(FaceModelDirection::from_bgm(4), FaceModelDirection::FRONT));
    assert!(matches!(FaceModelDirection::from_bgm(5), FaceModelDirection::BACK));
}
