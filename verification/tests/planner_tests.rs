use termimg::planner::{
    plan_dimensions, RenderPlan, TerminalGeometry, DEFAULT_COLUMNS, DEFAULT_ROWS, RESERVED_ROWS,
};

#[test]
fn planned_height_is_always_even() {
    for ow in [1u32, 2, 3, 7, 64, 1000, 4096] {
        for oh in [1u32, 2, 5, 9, 480, 1001] {
            for tw in [1u32, 2, 3, 79, 80, 200] {
                for tr in [0u32, 1, 2, 24, 25, 60] {
                    for clamp in [true, false] {
                        let plan = plan_dimensions(ow, oh, tw, tr, clamp);
                        assert_eq!(plan.height % 2, 0);
                    }
                }
            }
        }
    }
}

#[test]
fn clamped_height_never_exceeds_the_rows() {
    for ow in [1u32, 3, 640] {
        for oh in [1u32, 7, 480, 100_000] {
            for tw in [1u32, 80, 500] {
                for tr in [0u32, 1, 2, 24, 51] {
                    let plan = plan_dimensions(ow, oh, tw, tr, true);
                    assert!(plan.height <= 2 * (tr.saturating_sub(1) as u64));
                }
            }
        }
    }
}

#[test]
fn square_image_keeps_its_size() {
    assert_eq!(plan_dimensions(2, 2, 2, 24, true), RenderPlan { width: 2, height: 2 });
}

#[test]
fn wide_image_fills_the_columns() {
    // 640x480 at 80 columns: 480 / 640 * 80 = 60, over the 46 rows that fit.
    // The height becomes 46 and the width 640 / 480 * 46 = 61.33 -> 61.
    assert_eq!(plan_dimensions(640, 480, 80, 24, true), RenderPlan { width: 61, height: 46 });
    assert_eq!(plan_dimensions(640, 480, 80, 24, false), RenderPlan { width: 80, height: 60 });
}

#[test]
fn tall_image_is_cut_to_the_rows() {
    assert_eq!(plan_dimensions(100, 1000, 80, 24, true), RenderPlan { width: 5, height: 46 });
    assert_eq!(plan_dimensions(100, 1000, 80, 24, false), RenderPlan { width: 80, height: 800 });
}

#[test]
fn limit_applies_only_above_the_rounded_height() {
    // 24 / 1000 * 100 = 2.4 rounds to 2, which is the limit: the width stays.
    assert_eq!(plan_dimensions(1000, 24, 100, 2, true), RenderPlan { width: 100, height: 2 });
    // 26 / 1000 * 100 = 2.6 rounds to 3, over the limit: 1000 / 26 * 2 = 76.9 -> 77.
    assert_eq!(plan_dimensions(1000, 26, 100, 2, true), RenderPlan { width: 77, height: 2 });
}

#[test]
fn zero_columns_are_floored_to_one() {
    assert_eq!(plan_dimensions(10, 10, 0, 24, true), RenderPlan { width: 1, height: 2 });
    assert_eq!(plan_dimensions(10, 10, 0, 24, false), RenderPlan { width: 1, height: 2 });
}

#[test]
fn odd_height_is_raised_after_the_limit() {
    // 3 / 2 * 2 = 3, odd, under the limit: raised to 4.
    assert_eq!(plan_dimensions(2, 3, 2, 24, true), RenderPlan { width: 2, height: 4 });
    // 1 / 1 * 1 = 1.
    assert_eq!(plan_dimensions(1, 1, 1, 24, true), RenderPlan { width: 1, height: 2 });
}

#[test]
fn halves_round_upwards() {
    // 1 / 2 * 1 = 0.5 -> 1 -> 2.
    assert_eq!(plan_dimensions(2, 1, 1, 24, true), RenderPlan { width: 1, height: 2 });
    // 1 / 4 * 1 = 0.25 -> 0.
    assert_eq!(plan_dimensions(4, 1, 1, 24, true), RenderPlan { width: 1, height: 0 });
    // 3 / 10 * 5 = 1.5 -> 2.
    assert_eq!(plan_dimensions(10, 3, 5, 24, true), RenderPlan { width: 5, height: 2 });
}

#[test]
fn no_free_rows_leave_nothing_to_draw() {
    assert_eq!(plan_dimensions(640, 480, 80, 1, true), RenderPlan { width: 0, height: 0 });
    assert_eq!(plan_dimensions(640, 480, 80, 0, true), RenderPlan { width: 0, height: 0 });
    assert_eq!(plan_dimensions(640, 480, 80, 0, false), RenderPlan { width: 80, height: 60 });
}

#[test]
fn limited_width_stays_within_the_columns() {
    for ow in [1u32, 2, 33, 1920] {
        for oh in [1u32, 50, 1080, 65_000] {
            for tw in [1u32, 10, 80, 300] {
                let plan = plan_dimensions(ow, oh, tw, 24, true);
                assert!(plan.width <= tw);
            }
        }
    }
}

#[test]
fn largest_inputs_do_not_overflow() {
    let plan = plan_dimensions(1, u32::MAX, u32::MAX, u32::MAX, false);
    assert_eq!(plan.width, u32::MAX);
    assert_eq!(plan.height, 18_446_744_065_119_617_026);
    let plan = plan_dimensions(1, u32::MAX, u32::MAX, u32::MAX, true);
    assert_eq!(plan.height, 2 * (u32::MAX as u64 - 1));
    assert_eq!(plan.width, 2);
    let plan = plan_dimensions(u32::MAX, 1, u32::MAX, u32::MAX, true);
    assert_eq!(plan, RenderPlan { width: u32::MAX, height: 2 });
}

#[test]
fn requested_width_overrides_the_terminal() {
    let geometry = TerminalGeometry::resolve(Some(2), Some((120, 40)));
    assert_eq!(geometry, TerminalGeometry { columns: 2, rows: 40 });
    let geometry = TerminalGeometry::resolve(Some(132), None);
    assert_eq!(geometry, TerminalGeometry { columns: 132, rows: 24 });
}

#[test]
fn detected_width_leaves_one_column_free() {
    let geometry = TerminalGeometry::resolve(None, Some((120, 40)));
    assert_eq!(geometry, TerminalGeometry { columns: 119, rows: 40 });
    let geometry = TerminalGeometry::resolve(None, Some((0, 0)));
    assert_eq!(geometry, TerminalGeometry { columns: 0, rows: 0 });
}

#[test]
fn defaults_stand_in_for_a_missing_terminal() {
    let geometry = TerminalGeometry::resolve(None, None);
    assert_eq!(geometry, TerminalGeometry { columns: 80, rows: 24 });
    assert_eq!(DEFAULT_COLUMNS, 80);
    assert_eq!(DEFAULT_ROWS, 24);
    assert_eq!(RESERVED_ROWS, 1);
}
