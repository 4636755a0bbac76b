use wgpu_shell::{to_physical, PhysicalSize, ScalePolicy, State};

fn size(width: u32, height: u32) -> PhysicalSize {
    PhysicalSize::new(width, height)
}

#[test]
fn new_state_configures_from_initial_size() {
    let state = State::new(size(500, 400), ScalePolicy::Physical);
    assert_eq!(state.size(), size(500, 400));
    assert_eq!(state.config_size(), size(500, 400));
    assert!(state.is_configured());
}

#[test]
fn new_state_with_zero_size_is_unconfigured() {
    let state = State::new(size(0, 400), ScalePolicy::Physical);
    assert!(!state.is_configured());
}

#[test]
fn resize_to_current_size_keeps_config() {
    let mut state = State::new(size(640, 480), ScalePolicy::Physical);
    let current = state.size();
    let before = state.config_size();
    assert!(state.resize(current));
    assert_eq!(state.config_size(), before);
    assert_eq!(state.size(), current);
}

#[test]
fn resize_to_current_size_keeps_scaled_config() {
    let policy = ScalePolicy::Logical { numerator: 3, denominator: 2 };
    let mut state = State::new(size(900, 600), policy);
    assert_eq!(state.config_size(), size(600, 400));
    let current = state.size();
    assert!(state.resize(current));
    assert_eq!(state.config_size(), size(600, 400));
}

#[test]
fn resize_with_zero_width_is_noop() {
    let mut state = State::new(size(640, 480), ScalePolicy::Physical);
    assert!(!state.resize(size(0, 300)));
    assert_eq!(state.size(), size(640, 480));
    assert_eq!(state.config_size(), size(640, 480));
}

#[test]
fn resize_with_zero_height_is_noop() {
    let mut state = State::new(size(640, 480), ScalePolicy::Physical);
    assert!(!state.resize(size(300, 0)));
    assert!(!state.resize(size(0, 0)));
    assert_eq!(state.size(), size(640, 480));
    assert_eq!(state.config_size(), size(640, 480));
}

#[test]
fn scale_correction_halves_physical_size() {
    let policy = ScalePolicy::Logical { numerator: 2, denominator: 1 };
    let mut state = State::new(size(10, 10), policy);
    assert!(state.resize(size(1000, 800)));
    assert_eq!(state.size(), size(1000, 800));
    assert_eq!(state.config_size(), size(500, 400));
}

#[test]
fn scale_correction_truncates_toward_zero() {
    let policy = ScalePolicy::Logical { numerator: 2, denominator: 1 };
    let mut state = State::new(size(10, 10), policy);
    assert!(state.resize(size(1001, 799)));
    assert_eq!(state.config_size(), size(500, 399));
}

#[test]
fn scale_correction_to_zero_extent_records_size_keeps_config() {
    let policy = ScalePolicy::Logical { numerator: 2, denominator: 1 };
    let mut state = State::new(size(10, 10), policy);
    assert!(!state.resize(size(1, 800)));
    assert_eq!(state.size(), size(1, 800));
    assert_eq!(state.config_size(), size(5, 5));
    assert!(state.is_configured());
    assert!(state.resize(size(4, 800)));
    assert_eq!(state.config_size(), size(2, 400));
}

#[test]
fn logical_size_to_physical_pixels() {
    assert_eq!(to_physical(500, 400, 2, 1), size(1000, 800));
    assert_eq!(to_physical(500, 400, 3, 2), size(750, 600));
    assert_eq!(to_physical(501, 400, 5, 4), size(626, 500));
}

#[test]
fn logical_size_to_physical_rounds_halves_up() {
    assert_eq!(to_physical(1, 3, 3, 2), size(2, 5));
    assert_eq!(to_physical(u32::MAX, 0, 2, 1), size(u32::MAX, 0));
}

#[test]
fn scale_below_one_saturates() {
    let policy = ScalePolicy::Logical { numerator: 1, denominator: 2 };
    assert_eq!(policy.extent(size(u32::MAX, 3)), size(u32::MAX, 6));
}

#[test]
fn physical_policy_keeps_size() {
    assert_eq!(ScalePolicy::Physical.extent(size(1000, 800)), size(1000, 800));
}

#[test]
fn config_follows_every_positive_resize() {
    let mut state = State::new(size(500, 400), ScalePolicy::Physical);
    let sizes = [size(800, 600), size(1, 1), size(1920, 1080), size(u32::MAX, 7)];
    for s in sizes {
        assert!(state.resize(s));
        assert_eq!(state.config_size().width, state.size().width);
        assert_eq!(state.config_size().height, state.size().height);
    }
}
