use quake_modoki::PROGRESS_SCALE;
use quake_modoki::animation::{
    calc_position, derived_size, frame_at, lerp, show_frame, AnimConfig, AnimRun, Direction,
    Easing, RunState,
};
use quake_modoki::geometry::Rect;

const HALF: u32 = PROGRESS_SCALE / 2;

fn make_work_area(left: i32, top: i32, right: i32, bottom: i32) -> Rect {
    Rect {
        left,
        top,
        right,
        bottom,
    }
}

// ========== Easing Tests ==========

#[test]
fn test_easing_linear_boundaries() {
    assert_eq!(Easing::Linear.apply(0), 0);
    assert_eq!(Easing::Linear.apply(PROGRESS_SCALE), PROGRESS_SCALE);
}

#[test]
fn test_easing_linear_mid() {
    assert_eq!(Easing::Linear.apply(HALF), HALF);
}

#[test]
fn test_easing_quad_boundaries() {
    assert_eq!(Easing::Quad.apply(0), 0);
    assert_eq!(Easing::Quad.apply(PROGRESS_SCALE), PROGRESS_SCALE);
}

#[test]
fn test_easing_quad_mid() {
    // ease-out-quad: 1 - (1 - t)^2 = 1 - 0.25 = 0.75
    assert_eq!(Easing::Quad.apply(HALF), PROGRESS_SCALE / 4 * 3);
}

#[test]
fn test_easing_cubic_boundaries() {
    assert_eq!(Easing::Cubic.apply(0), 0);
    assert_eq!(Easing::Cubic.apply(PROGRESS_SCALE), PROGRESS_SCALE);
}

#[test]
fn test_easing_cubic_mid() {
    // ease-out-cubic: 1 - (1 - t)^3 = 1 - 0.125 = 0.875
    assert_eq!(Easing::Cubic.apply(HALF), PROGRESS_SCALE / 8 * 7);
}

#[test]
fn test_easing_expo_boundaries() {
    assert_eq!(Easing::Expo.apply(0), 0);
    assert_eq!(Easing::Expo.apply(PROGRESS_SCALE), PROGRESS_SCALE);
}

#[test]
fn test_easing_expo_mid() {
    // at t = 0.5 the curve value 1 - 2^-5 is exact on the fixed-point scale
    assert_eq!(Easing::Expo.apply(HALF), PROGRESS_SCALE - PROGRESS_SCALE / 32);
}

#[test]
fn test_easing_monotone_samples() {
    for easing in [Easing::Linear, Easing::Quad, Easing::Cubic, Easing::Expo] {
        let mut prev = 0u32;
        let mut t = 0u32;
        while t <= PROGRESS_SCALE {
            let v = easing.apply(t);
            assert!(v >= prev, "easing went down at t={}", t);
            assert!(v <= PROGRESS_SCALE);
            prev = v;
            t += 1024;
        }
    }
}

// ========== Lerp Tests ==========

#[test]
fn test_lerp_boundaries() {
    assert_eq!(lerp(0, 100, 0), 0);
    assert_eq!(lerp(0, 100, PROGRESS_SCALE), 100);
}

#[test]
fn test_lerp_mid() {
    assert_eq!(lerp(0, 100, HALF), 50);
}

#[test]
fn test_lerp_negative() {
    assert_eq!(lerp(-100, 0, 0), -100);
    assert_eq!(lerp(-100, 0, PROGRESS_SCALE), 0);
    assert_eq!(lerp(-100, 0, HALF), -50);
}

#[test]
fn test_lerp_rounds_half_away_from_zero() {
    // 0 + 3 * 0.5 = 1.5 rounds to 2; 0 - 3 * 0.5 = -1.5 rounds to -2
    assert_eq!(lerp(0, 3, HALF), 2);
    assert_eq!(lerp(0, -3, HALF), -2);
}

#[test]
fn test_lerp_extremes() {
    assert_eq!(lerp(i32::MIN, i32::MAX, 0), i32::MIN);
    assert_eq!(lerp(i32::MIN, i32::MAX, PROGRESS_SCALE), i32::MAX);
    assert_eq!(lerp(i32::MAX, i32::MIN, PROGRESS_SCALE), i32::MIN);
}

// ========== Position Tests ==========

#[test]
fn test_calc_position_left_slide_in_start() {
    let work_area = make_work_area(0, 0, 1920, 1080);
    let (x, y) = calc_position(Direction::Left, &work_area, 768, 1080, 0, true);
    assert_eq!(x, -768); // hidden: x = -width
    assert_eq!(y, 0);
}

#[test]
fn test_calc_position_left_slide_in_end() {
    let work_area = make_work_area(0, 0, 1920, 1080);
    let (x, y) = calc_position(Direction::Left, &work_area, 768, 1080, PROGRESS_SCALE, true);
    assert_eq!(x, 0); // visible: x = 0
    assert_eq!(y, 0);
}

#[test]
fn test_calc_position_left_slide_out_end() {
    let work_area = make_work_area(0, 0, 1920, 1080);
    let (x, y) = calc_position(Direction::Left, &work_area, 768, 1080, PROGRESS_SCALE, false);
    assert_eq!(x, -768); // hidden: x = -width
    assert_eq!(y, 0);
}

#[test]
fn test_calc_position_right_slide_in_start() {
    let work_area = make_work_area(0, 0, 1920, 1080);
    let (x, y) = calc_position(Direction::Right, &work_area, 768, 1080, 0, true);
    assert_eq!(x, 1920); // hidden: x = screen_width
    assert_eq!(y, 0);
}

#[test]
fn test_calc_position_right_slide_in_end() {
    let work_area = make_work_area(0, 0, 1920, 1080);
    let (x, y) = calc_position(Direction::Right, &work_area, 768, 1080, PROGRESS_SCALE, true);
    assert_eq!(x, 1920 - 768); // visible: x = screen_width - width
    assert_eq!(y, 0);
}

#[test]
fn test_calc_position_top_slide_in() {
    let work_area = make_work_area(0, 0, 1920, 1080);
    let (x, y) = calc_position(Direction::Top, &work_area, 1920, 540, 0, true);
    assert_eq!(x, 0);
    assert_eq!(y, -540); // hidden: y = -height
}

#[test]
fn test_calc_position_bottom_slide_in() {
    let work_area = make_work_area(0, 0, 1920, 1080);
    let (x, y) = calc_position(Direction::Bottom, &work_area, 1920, 540, 0, true);
    assert_eq!(x, 0);
    assert_eq!(y, 1080); // hidden: y = screen_height
}

#[test]
fn test_calc_position_hidden_endpoint_shared() {
    // progress 0 of a slide-in equals progress 1 of a slide-out, per direction
    let work_area = make_work_area(0, 0, 1920, 1080);
    for direction in [
        Direction::Left,
        Direction::Right,
        Direction::Top,
        Direction::Bottom,
    ] {
        let slide_in_start = calc_position(direction, &work_area, 768, 540, 0, true);
        let slide_out_end = calc_position(direction, &work_area, 768, 540, PROGRESS_SCALE, false);
        assert_eq!(slide_in_start, slide_out_end);
    }
}

// ========== Config and Frame Tests ==========

#[test]
fn test_anim_config_default() {
    let config = AnimConfig::default();
    assert_eq!(config.duration_ms, 200);
    assert_eq!(config.easing, Easing::Cubic);
    assert_eq!(config.direction, Direction::Left);
    assert_eq!(config.width_percent, 40);
    assert_eq!(config.height_percent, 100);
}

#[test]
fn test_derived_size_percentages() {
    let work_area = make_work_area(0, 0, 1920, 1080);
    assert_eq!(derived_size(&work_area, 40, 100), (768, 1080));
    assert_eq!(derived_size(&work_area, 100, 50), (1920, 540));
}

#[test]
fn test_frame_at_start_and_end() {
    let config = AnimConfig::default();
    let work_area = make_work_area(0, 0, 1920, 1080);

    let first = frame_at(&config, &work_area, 768, 1080, true, 0);
    assert_eq!((first.x, first.y), (-768, 0));
    assert!(!first.is_final);

    let last = frame_at(&config, &work_area, 768, 1080, true, 200);
    assert_eq!((last.x, last.y), (0, 0));
    assert!(last.is_final);
    assert_eq!((last.width, last.height), (768, 1080));
}

#[test]
fn test_frame_flags_atomic_hide() {
    let config = AnimConfig::default();
    let work_area = make_work_area(0, 0, 1920, 1080);

    // terminal slide-out frame: hide combined with the move, no activation
    let last_out = frame_at(&config, &work_area, 768, 1080, false, 200);
    assert!(last_out.is_final);
    assert!(last_out.flags.hide);
    assert!(last_out.flags.no_activate);
    assert_eq!((last_out.x, last_out.y), (-768, 0));

    // earlier slide-out frames only suppress activation
    let mid_out = frame_at(&config, &work_area, 768, 1080, false, 100);
    assert!(!mid_out.is_final);
    assert!(!mid_out.flags.hide);
    assert!(mid_out.flags.no_activate);

    // slide-in frames allow activation, keep the z-order
    let mid_in = frame_at(&config, &work_area, 768, 1080, true, 100);
    assert!(!mid_in.flags.no_activate);
    assert!(mid_in.flags.keep_zorder);
    assert!(!mid_in.flags.hide);
}

#[test]
fn test_show_frame_presents_hidden_position() {
    let config = AnimConfig::default();
    let work_area = make_work_area(0, 0, 1920, 1080);
    let frame = show_frame(&config, &work_area, 768, 1080);
    assert_eq!((frame.x, frame.y), (-768, 0));
    assert!(frame.flags.show);
    assert!(!frame.flags.hide);
    assert!(!frame.is_final);
}

#[test]
fn test_anim_run_slide_in_lifecycle() {
    let config = AnimConfig::default();
    let work_area = make_work_area(0, 0, 1920, 1080);
    let mut run = AnimRun::new(config, work_area, 768, 1080, true);
    assert_eq!(run.state, RunState::NotStarted);

    let first = run.begin();
    assert_eq!(run.state, RunState::Running);
    let first = first.expect("slide-in must pre-show the window");
    assert!(first.flags.show);

    let mid = run.next_frame(100);
    assert!(!mid.is_final);
    assert_eq!(run.state, RunState::Running);

    let last = run.next_frame(250);
    assert!(last.is_final);
    assert_eq!((last.x, last.y), (0, 0));
    assert_eq!(run.state, RunState::Done);
    assert!(!run.needs_final_sync());
}

#[test]
fn test_anim_run_slide_out_lifecycle() {
    let config = AnimConfig::default();
    let work_area = make_work_area(0, 0, 1920, 1080);
    let mut run = AnimRun::new(config, work_area, 768, 1080, false);

    assert!(run.begin().is_none(), "slide-out starts with the window where it is");

    let last = run.next_frame(200);
    assert!(last.is_final);
    assert!(last.flags.hide);
    assert_eq!(run.state, RunState::Done);
    assert!(run.needs_final_sync(), "hide must be composited before returning");
}

#[test]
fn test_anim_run_zero_duration_finishes_at_once() {
    let config = AnimConfig {
        duration_ms: 0,
        ..AnimConfig::default()
    };
    let work_area = make_work_area(0, 0, 1920, 1080);
    let mut run = AnimRun::new(config, work_area, 768, 1080, true);
    run.begin();
    let frame = run.next_frame(0);
    assert!(frame.is_final);
    assert_eq!((frame.x, frame.y), (0, 0));
}
