use reachy_mini_rust::common::{clamp, ImageData, ImageFormat, PerformanceStats, Quaternion, Vector3};

#[test]
fn test_image_data() {
    let img = ImageData::new(640, 480, 3, ImageFormat::RGB8);
    assert_eq!(img.width, 640);
    assert_eq!(img.height, 480);
    assert_eq!(img.channels, 3);
    assert_eq!(img.size(), 640 * 480 * 3);
    assert!(img.is_valid());
}

#[test]
fn test_image_data_from_raw() {
    let data = vec![7u8; 16];
    let img = ImageData::from_raw(4, 4, 1, data, ImageFormat::Gray8);
    assert_eq!(img.size(), 16);
    assert!(img.is_valid());

    let bad = ImageData::from_raw(4, 4, 1, vec![0u8; 5], ImageFormat::Gray8);
    assert!(!bad.is_valid());
}

#[test]
fn test_vector3_operations() {
    let v1 = Vector3::new(1000, 2000, 3000);
    let v2 = Vector3::new(4000, 5000, 6000);

    let sum = v1.add(&v2);
    assert_eq!(sum, Vector3::new(5000, 7000, 9000));

    let diff = v2.sub(&v1);
    assert_eq!(diff, Vector3::new(3000, 3000, 3000));

    let scaled = v1.scale(2000);
    assert_eq!(scaled, Vector3::new(2000, 4000, 6000));

    // |(1, 2, 3)| = sqrt(14) = 3.741..., in thousandths rounded down.
    let magnitude = v1.magnitude();
    assert_eq!(magnitude, 3741);
}

#[test]
fn test_vector3_dot_and_cross() {
    let v1 = Vector3::new(1000, 0, 0);
    let v2 = Vector3::new(0, 1000, 0);
    assert_eq!(v1.dot(&v2), 0);
    assert_eq!(v1.dot(&v1), 1000);
    let c = v1.cross(&v2);
    assert_eq!(c, Vector3::new(0, 0, 1000));
}

#[test]
fn test_vector3_normalize() {
    // |(3, 4, 0)| = 5, so the unit vector is (0.6, 0.8, 0).
    let v = Vector3::new(3000, 4000, 0);
    assert_eq!(v.magnitude(), 5000);
    assert_eq!(v.normalize(), Vector3::new(600, 800, 0));
    assert_eq!(Vector3::zero().normalize(), Vector3::zero());
}

#[test]
fn test_quaternion_normalize() {
    let q = Quaternion::new(2000, 0, 0, 0);
    assert_eq!(q.normalize(), Quaternion::identity());
    // A degenerate all-zero quaternion becomes the identity rotation.
    let zero = Quaternion::new(0, 0, 0, 0);
    assert_eq!(zero.normalize(), Quaternion::identity());
}

#[test]
fn test_clamp_behaviour() {
    assert_eq!(clamp(5, 0, 10), 5);
    assert_eq!(clamp(-5, 0, 10), 0);
    assert_eq!(clamp(15, 0, 10), 10);
}

#[test]
fn test_performance_stats_update() {
    let mut stats = PerformanceStats::new();
    assert_eq!(stats.total_frames, 0);

    stats.update_frame_stats(10_000);
    assert_eq!(stats.total_frames, 1);
    assert_eq!(stats.max_processing_time, 10_000);
    assert_eq!(stats.min_processing_time, 10_000);
    // First sample: (0 * 9 + 10000) / 10.
    assert_eq!(stats.avg_processing_time, 1000);
    // 1e9 / 1000 us -> thousandths of a frame per second.
    assert_eq!(stats.fps, 1_000_000);

    stats.increment_dropped_frames();
    assert_eq!(stats.dropped_frames, 1);
}
