//! The numbers of the enumerations.
use synthizer::{
    DistanceModel, I32TransmutableEnum, InterpolationType, LogLevel, NoiseType, ObjectType,
    PannerStrategy,
};

#[test]
fn object_types_number_in_order() {
    let all = [
        ObjectType::Context,
        ObjectType::Buffer,
        ObjectType::BufferGenerator,
        ObjectType::StreamingGenerator,
        ObjectType::NoiseGenerator,
        ObjectType::DirectSource,
        ObjectType::AngularPannedSource,
        ObjectType::ScalarPannedSource,
        ObjectType::Source3D,
        ObjectType::GlobalEcho,
        ObjectType::GlobalFdnReverb,
        ObjectType::StreamHandle,
        ObjectType::AutomationBatch,
        ObjectType::FastSineBankGenerator,
    ];
    for (i, t) in all.iter().enumerate() {
        assert_eq!(t.as_i32(), i as i32);
        assert_eq!(ObjectType::from_i32(i as i32), Some(*t));
    }
    assert_eq!(ObjectType::from_i32(14), None);
    assert_eq!(ObjectType::from_i32(-1), None);
}

#[test]
fn small_enumerations_round_trip() {
    assert_eq!(PannerStrategy::Delegate.as_i32(), 0);
    assert_eq!(PannerStrategy::Hrtf.as_i32(), 1);
    assert_eq!(PannerStrategy::Stereo.as_i32(), 2);
    assert_eq!(PannerStrategy::from_i32(1), Some(PannerStrategy::Hrtf));
    assert_eq!(PannerStrategy::from_i32(3), None);
    assert_eq!(DistanceModel::Off.as_i32(), 0);
    assert_eq!(DistanceModel::Inverse.as_i32(), 3);
    assert_eq!(DistanceModel::from_i32(2), Some(DistanceModel::Exponential));
    assert_eq!(DistanceModel::from_i32(4), None);
    assert_eq!(NoiseType::FilteredBrown.as_i32(), 2);
    assert_eq!(NoiseType::from_i32(0), Some(NoiseType::Uniform));
    assert_eq!(NoiseType::from_i32(1), Some(NoiseType::Vm));
    assert_eq!(InterpolationType::Off.as_i32(), 0);
    assert_eq!(InterpolationType::Linear.as_i32(), 1);
    assert_eq!(InterpolationType::from_i32(2), None);
}

#[test]
fn log_levels_step_by_ten() {
    assert_eq!(LogLevel::Error.as_i32(), 0);
    assert_eq!(LogLevel::Warn.as_i32(), 10);
    assert_eq!(LogLevel::Info.as_i32(), 20);
    assert_eq!(LogLevel::Debug.as_i32(), 30);
    assert_eq!(LogLevel::from_i32(20), Some(LogLevel::Info));
    assert_eq!(LogLevel::from_i32(5), None);
}
