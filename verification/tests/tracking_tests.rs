use quake_modoki::animation::Direction;
use quake_modoki::geometry::Rect;
use quake_modoki::tracking::{calc_direction, overlap_ratio, BoundsStore, WindowBounds};

fn make_rect(left: i32, top: i32, right: i32, bottom: i32) -> Rect {
    Rect {
        left,
        top,
        right,
        bottom,
    }
}

// ========== WindowBounds Tests ==========

#[test]
fn test_window_bounds_from_rect() {
    let rect = make_rect(100, 200, 500, 600);
    let bounds = WindowBounds::from_rect(&rect);

    assert_eq!(bounds.x, 100);
    assert_eq!(bounds.y, 200);
    assert_eq!(bounds.width, 400);
    assert_eq!(bounds.height, 400);
}

#[test]
fn test_load_bounds_initially_none() {
    let mut store = BoundsStore::new();
    store.clear_bounds();
    assert!(store.load_bounds().is_none());
}

#[test]
fn test_save_bounds_overwrites_single_slot() {
    let mut store = BoundsStore::new();

    let first = store.save_bounds(Some(make_rect(0, 0, 100, 100)));
    assert_eq!(
        first,
        Some(WindowBounds {
            x: 0,
            y: 0,
            width: 100,
            height: 100
        })
    );

    let second = store.save_bounds(Some(make_rect(10, 20, 110, 220)));
    assert_eq!(
        second,
        Some(WindowBounds {
            x: 10,
            y: 20,
            width: 100,
            height: 200
        })
    );
    assert_eq!(store.load_bounds(), second);

    // a failed capture leaves the stored value alone
    assert!(store.save_bounds(None).is_none());
    assert_eq!(store.load_bounds(), second);

    store.clear_bounds();
    assert!(store.load_bounds().is_none());
}

// ========== Overlap Ratio Tests ==========

#[test]
fn test_overlap_ratio_full() {
    let bounds = WindowBounds {
        x: 0,
        y: 0,
        width: 100,
        height: 100,
    };
    let region = make_rect(0, 0, 100, 100);
    let ratio = overlap_ratio(&bounds, &region);
    assert_eq!(ratio.num, ratio.den); // exactly 1
    assert_eq!(ratio.num, 100 * 100);
}

#[test]
fn test_overlap_ratio_none() {
    let bounds = WindowBounds {
        x: 0,
        y: 0,
        width: 100,
        height: 100,
    };
    let region = make_rect(200, 200, 300, 300);
    let ratio = overlap_ratio(&bounds, &region);
    assert_eq!(ratio.num, 0); // exactly 0
    assert_eq!(ratio.den, 1);
}

#[test]
fn test_overlap_ratio_half() {
    let bounds = WindowBounds {
        x: 0,
        y: 0,
        width: 100,
        height: 100,
    };
    let region = make_rect(50, 0, 150, 100); // right half overlaps
    let ratio = overlap_ratio(&bounds, &region);
    assert_eq!(2 * ratio.num, ratio.den); // exactly 1/2
}

#[test]
fn test_overlap_ratio_quarter() {
    let bounds = WindowBounds {
        x: 0,
        y: 0,
        width: 100,
        height: 100,
    };
    let region = make_rect(50, 50, 150, 150); // bottom-right quarter
    let ratio = overlap_ratio(&bounds, &region);
    assert_eq!(4 * ratio.num, ratio.den); // exactly 1/4
}

#[test]
fn test_overlap_ratio_half_horizontal() {
    let bounds = WindowBounds {
        x: 0,
        y: 0,
        width: 100,
        height: 100,
    };
    let region = make_rect(0, 50, 100, 150); // bottom half overlaps
    let ratio = overlap_ratio(&bounds, &region);
    assert_eq!(2 * ratio.num, ratio.den); // exactly 1/2
}

#[test]
fn test_overlap_ratio_zero_area_window() {
    let bounds = WindowBounds {
        x: 0,
        y: 0,
        width: 0,
        height: 100,
    };
    let region = make_rect(-100, -100, 100, 100);
    let ratio = overlap_ratio(&bounds, &region);
    assert_eq!(ratio.num, 0);
    assert_eq!(ratio.den, 1);
}

// ========== Direction Calculation Tests ==========

#[test]
fn test_calc_direction_left_half() {
    // Window in left half of screen
    let bounds = WindowBounds {
        x: 100,
        y: 100,
        width: 400,
        height: 600,
    };
    let work_area = make_rect(0, 0, 1920, 1080);
    let dir = calc_direction(&bounds, &work_area);
    assert_eq!(dir, Direction::Left);
}

#[test]
fn test_calc_direction_right_half() {
    // Window in right half of screen
    let bounds = WindowBounds {
        x: 1400,
        y: 100,
        width: 400,
        height: 600,
    };
    let work_area = make_rect(0, 0, 1920, 1080);
    let dir = calc_direction(&bounds, &work_area);
    assert_eq!(dir, Direction::Right);
}

#[test]
fn test_calc_direction_top_half() {
    // Window in top half, centered horizontally
    let bounds = WindowBounds {
        x: 760,
        y: 50,
        width: 400,
        height: 300,
    };
    let work_area = make_rect(0, 0, 1920, 1080);
    let dir = calc_direction(&bounds, &work_area);
    assert_eq!(dir, Direction::Top);
}

#[test]
fn test_calc_direction_bottom_half() {
    // Window in bottom half, centered horizontally
    let bounds = WindowBounds {
        x: 760,
        y: 700,
        width: 400,
        height: 300,
    };
    let work_area = make_rect(0, 0, 1920, 1080);
    let dir = calc_direction(&bounds, &work_area);
    assert_eq!(dir, Direction::Bottom);
}

#[test]
fn test_calc_direction_tie_prefers_left() {
    // A window centered on the work area overlaps all four halves alike:
    // the tie goes to the first direction in the order Left, Right, Top,
    // Bottom.
    let bounds = WindowBounds {
        x: 860,
        y: 440,
        width: 200,
        height: 200,
    };
    let work_area = make_rect(0, 0, 1920, 1080);
    let dir = calc_direction(&bounds, &work_area);
    assert_eq!(dir, Direction::Left);
}
