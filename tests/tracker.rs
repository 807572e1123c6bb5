use tilt_leds::orientation::{classify_vector, Orientation, OrientationTracker, RawSample};

fn sample(x: i16, y: i16, z: i16) -> RawSample {
    RawSample { x, y, z }
}

fn feed(t: &mut OrientationTracker, s: RawSample, n: usize) {
    for _ in 0..n {
        t.update(s);
    }
}

#[test]
fn classify_each_dominant_axis() {
    assert_eq!(classify_vector(20000, 0, 0), Orientation::LandscapeUp);
    assert_eq!(classify_vector(-20000, 0, 0), Orientation::LandscapeDown);
    assert_eq!(classify_vector(0, 20000, 0), Orientation::PortraitUp);
    assert_eq!(classify_vector(0, -20000, 0), Orientation::PortraitDown);
    assert_eq!(classify_vector(0, 0, -20000), Orientation::FaceUp);
    assert_eq!(classify_vector(0, 0, 20000), Orientation::FaceDown);
    assert_eq!(classify_vector(0, 0, 0), Orientation::Unknown);
}

#[test]
fn classify_magnitude_threshold() {
    assert_eq!(classify_vector(4201, 0, 0), Orientation::LandscapeUp);
    assert_eq!(classify_vector(4200, 0, 0), Orientation::Unknown);
    assert_eq!(classify_vector(0, -4200, 0), Orientation::Unknown);
}

#[test]
fn classify_dominance_margin() {
    assert_eq!(classify_vector(8297, 4200, 0), Orientation::LandscapeUp);
    assert_eq!(classify_vector(8296, 4200, 0), Orientation::Unknown);
    assert_eq!(classify_vector(8296, 0, -4200), Orientation::Unknown);
    assert_eq!(classify_vector(-3000, 12000, 7903), Orientation::PortraitUp);
}

#[test]
fn classify_near_level_split_is_unknown() {
    assert_eq!(classify_vector(23170, 23170, 0), Orientation::Unknown);
    assert_eq!(classify_vector(23170, -21000, 500), Orientation::Unknown);
    assert_eq!(classify_vector(300, 15000, -14000), Orientation::Unknown);
}

#[test]
fn new_tracker_is_unknown() {
    let t = OrientationTracker::new();
    assert_eq!(t.orientation(), Orientation::Unknown);
}

#[test]
fn update_moves_a_quarter_of_the_way() {
    // From zero, one sample of 20000 on x leaves an estimate of 5000.
    let mut t = OrientationTracker::new();
    t.update(sample(20000, 0, 0));
    assert_eq!(t.orientation(), Orientation::LandscapeUp);
    // A second, opposite sample: 5000 + (-20000 - 5000) / 4 = -1250.
    t.update(sample(-20000, 0, 0));
    assert_eq!(t.orientation(), Orientation::Unknown);
}

#[test]
fn single_sample_does_not_flip_a_settled_estimate() {
    let mut t = OrientationTracker::new();
    feed(&mut t, sample(0, 0, 32767), 112);
    assert_eq!(t.orientation(), Orientation::FaceDown);
    t.update(sample(32767, 0, 0));
    assert_eq!(t.orientation(), Orientation::FaceDown);
}

#[test]
fn settles_on_each_full_scale_axis() {
    let cases = [
        (sample(32767, 0, 0), Orientation::LandscapeUp),
        (sample(-32767, 0, 0), Orientation::LandscapeDown),
        (sample(0, 32767, 0), Orientation::PortraitUp),
        (sample(0, -32767, 0), Orientation::PortraitDown),
        (sample(0, 0, -32767), Orientation::FaceUp),
        (sample(0, 0, 32767), Orientation::FaceDown),
    ];
    for (g, expected) in cases {
        let mut t = OrientationTracker::new();
        feed(&mut t, g, 112);
        assert_eq!(t.orientation(), expected);
    }
}

#[test]
fn settles_from_the_opposite_extreme_and_holds_under_noise() {
    let mut t = OrientationTracker::new();
    feed(&mut t, sample(-32768, 32767, 32767), 200);
    feed(&mut t, sample(32767, 0, 0), 112);
    assert_eq!(t.orientation(), Orientation::LandscapeUp);
    let noise: [i16; 6] = [1638, -1638, 900, -1200, 0, 1500];
    for i in 0..300usize {
        let nx = noise[i % 6];
        let ny = noise[(i + 2) % 6];
        let nz = noise[(i + 4) % 6];
        t.update(sample(32767 - nx.abs(), ny, nz));
        assert_eq!(t.orientation(), Orientation::LandscapeUp);
    }
}

#[test]
fn repeated_near_level_sample_stays_unknown() {
    let mut t = OrientationTracker::new();
    for _ in 0..200 {
        t.update(sample(11000, 10500, 300));
        assert_eq!(t.orientation(), Orientation::Unknown);
    }
}

#[test]
fn repeated_even_split_stays_unknown() {
    let mut t = OrientationTracker::new();
    for _ in 0..200 {
        t.update(sample(20000, -20000, 0));
        assert_eq!(t.orientation(), Orientation::Unknown);
    }
}

#[test]
fn weak_signal_stays_unknown() {
    let mut t = OrientationTracker::new();
    feed(&mut t, sample(4000, 0, 0), 200);
    assert_eq!(t.orientation(), Orientation::Unknown);
}

#[test]
fn smoothing_rounds_toward_zero() {
    let mut t = OrientationTracker::new();
    t.update(sample(20000, -1001, 1003));
    assert_eq!(t.estimate(), (5000, -250, 250));
    t.update(sample(-20000, -1001, 3));
    // 5000 + (-25000 / 4) = -1250; -250 + (-751 / 4 toward zero) = -437;
    // 250 + (-247 / 4 toward zero) = 189.
    assert_eq!(t.estimate(), (-1250, -437, 189));
    assert_eq!(t.orientation(), Orientation::Unknown);
}

#[test]
fn estimate_stays_within_sample_range() {
    let mut t = OrientationTracker::new();
    feed(&mut t, sample(-32768, 32767, -32768), 500);
    let (x, y, z) = t.estimate();
    assert_eq!((x, y, z), (-32768, 32767, -32768));
}

#[test]
fn steady_near_level_reading_after_strong_pull_is_unknown() {
    let mut t = OrientationTracker::new();
    feed(&mut t, sample(32767, 0, 0), 200);
    feed(&mut t, sample(10000, 5905, 0), 200);
    assert_eq!(t.estimate(), (10000, 5905, 0));
    assert_eq!(t.orientation(), Orientation::Unknown);
}

#[test]
fn steady_weak_reading_after_strong_pull_is_unknown() {
    let mut t = OrientationTracker::new();
    feed(&mut t, sample(32767, 0, 0), 200);
    feed(&mut t, sample(4199, 0, 0), 200);
    assert_eq!(t.estimate(), (4199, 0, 0));
    assert_eq!(t.orientation(), Orientation::Unknown);
}

#[test]
fn steady_reading_just_over_threshold_is_reported() {
    let mut t = OrientationTracker::new();
    feed(&mut t, sample(4201, 0, 0), 112);
    assert_eq!(t.estimate(), (4201, 0, 0));
    assert_eq!(t.orientation(), Orientation::LandscapeUp);
}

#[test]
fn even_split_with_vertical_axis_after_prior_attitude_is_unknown() {
    let mut t = OrientationTracker::new();
    feed(&mut t, sample(0, -32767, 0), 200);
    feed(&mut t, sample(0, 15000, -15000), 112);
    assert_eq!(t.estimate(), (0, 15000, -15000));
    assert_eq!(t.orientation(), Orientation::Unknown);
    feed(&mut t, sample(-9000, 0, 9000), 112);
    assert_eq!(t.orientation(), Orientation::Unknown);
}

#[test]
fn free_fall_reading_is_unknown() {
    let mut t = OrientationTracker::new();
    feed(&mut t, sample(0, 0, 32767), 200);
    feed(&mut t, sample(0, 0, 0), 112);
    assert_eq!(t.estimate(), (0, 0, 0));
    assert_eq!(t.orientation(), Orientation::Unknown);
}
