use flag_symmetry::{
    check_axis_symmetry, check_near_edge, check_symmetry, classify, color_channel_compare,
    compare_pixel, Axis, Category, Pixel, PixelBuffer, Symmetry, Tolerance,
};

fn px(r: u8, g: u8, b: u8) -> Pixel {
    Pixel { r, g, b }
}

fn tol(num: u32, den: u32) -> Tolerance {
    Tolerance::new(num, den).unwrap()
}

/// Builds a buffer whose color depends only on the column.
fn column_buffer(height: usize, columns: &[(u8, u8, u8)]) -> PixelBuffer {
    let width = columns.len();
    let mut pixels = Vec::new();
    for _y in 0..height {
        for &(r, g, b) in columns {
            pixels.push(px(r, g, b));
        }
    }
    PixelBuffer::new(width, height, pixels).unwrap()
}

/// Builds a buffer whose color depends only on the row.
fn row_buffer(width: usize, rows: &[(u8, u8, u8)]) -> PixelBuffer {
    let height = rows.len();
    let mut pixels = Vec::new();
    for &(r, g, b) in rows {
        for _x in 0..width {
            pixels.push(px(r, g, b));
        }
    }
    PixelBuffer::new(width, height, pixels).unwrap()
}

#[test]
fn compare_pixel_all_black_is_equal() {
    // Zero average on every channel: the exact-equality branch accepts.
    let t = Tolerance::default();
    assert!(compare_pixel(px(0, 0, 0), px(0, 0, 0), &t));
}

#[test]
fn compare_pixel_relative_difference() {
    // |10 - 12| relative to the average 11 is about 0.18: inside a quarter,
    // outside a tenth.
    assert!(compare_pixel(px(10, 10, 10), px(12, 12, 12), &tol(1, 4)));
    assert!(!compare_pixel(px(10, 10, 10), px(12, 12, 12), &tol(1, 10)));
}

#[test]
fn channel_boundary_is_rejected() {
    // |19 - 21| / 20 is exactly the tolerance 1/10: the strict bound rejects.
    assert!(!color_channel_compare(19, 21, &tol(1, 10)));
    // |20 - 22| / 21 is just under 1/10.
    assert!(color_channel_compare(20, 22, &tol(1, 10)));
}

#[test]
fn channel_zero_average_requires_equality() {
    assert!(color_channel_compare(0, 0, &tol(1, 10)));
    assert!(!color_channel_compare(0, 255, &tol(1, 10)));
}

#[test]
fn exactly_mirrored_buffer_is_symmetric() {
    // Every column equals its mirror exactly, so even a tiny tolerance
    // accepts the vertical axis.
    let buf = column_buffer(
        4,
        &[(255, 0, 0), (0, 255, 0), (7, 7, 7), (0, 255, 0), (255, 0, 0)],
    );
    assert!(check_axis_symmetry(&buf, Axis::Vertical, &tol(1, 1000)));
    // And the row-mirrored counterpart for the horizontal axis.
    let buf = row_buffer(4, &[(10, 20, 30), (40, 50, 60), (40, 50, 60), (10, 20, 30)]);
    assert!(check_axis_symmetry(&buf, Axis::Horizontal, &tol(1, 1000)));
}

#[test]
fn unrecoverable_mismatch_fails_the_axis() {
    // Left half black, right half white: the pair at (1, 1) is off tolerance,
    // away from the margin, and its 3x3 windows (all black vs. all white)
    // also differ, so the vertical check fails.
    let buf = column_buffer(
        3,
        &[(0, 0, 0), (0, 0, 0), (0, 0, 0), (255, 255, 255), (255, 255, 255), (255, 255, 255)],
    );
    assert!(!check_axis_symmetry(&buf, Axis::Vertical, &Tolerance::default()));
}

#[test]
fn edge_mismatch_is_tolerated() {
    // Only the outermost column pair differs (black vs. white); x = 0 lies
    // within the edge margin, so the vertical check still passes.
    let buf = column_buffer(
        3,
        &[(0, 0, 0), (100, 100, 100), (100, 100, 100), (100, 100, 100), (100, 100, 100),
            (255, 255, 255)],
    );
    assert!(check_axis_symmetry(&buf, Axis::Vertical, &Tolerance::default()));
}

#[test]
fn odd_center_column_is_ignored() {
    // Two buffers differing only in the center column of an odd width: the
    // vertical check never reads that column, so both pass.
    let with_dark_center = column_buffer(
        3,
        &[(200, 10, 10), (10, 200, 10), (1, 2, 3), (10, 200, 10), (200, 10, 10)],
    );
    let with_light_center = column_buffer(
        3,
        &[(200, 10, 10), (10, 200, 10), (250, 249, 248), (10, 200, 10), (200, 10, 10)],
    );
    assert!(check_axis_symmetry(&with_dark_center, Axis::Vertical, &Tolerance::default()));
    assert!(check_axis_symmetry(&with_light_center, Axis::Vertical, &Tolerance::default()));
}

#[test]
fn uniform_buffer_is_fully_symmetric() {
    let buf = column_buffer(4, &[(30, 60, 90), (30, 60, 90), (30, 60, 90), (30, 60, 90)]);
    let s = check_symmetry(&buf, &Tolerance::default());
    assert!(s.vertical);
    assert!(s.horizontal);
    assert_eq!(classify(&s), Category::Full);
}

#[test]
fn quadrant_buffer_is_asymmetric_on_both_axes() {
    // Four 3x3 quadrants in far-apart colors: both scans find a pair at
    // (1, 1) whose windows stay inside a single quadrant, so both fail.
    let a = (50u8, 50u8, 50u8);
    let b = (250u8, 250u8, 250u8);
    let c = (200u8, 200u8, 200u8);
    let d = (120u8, 120u8, 120u8);
    let mut pixels = Vec::new();
    for y in 0..6usize {
        for x in 0..6usize {
            let (r, g, bl) = match (x < 3, y < 3) {
                (true, true) => a,
                (false, true) => c,
                (true, false) => b,
                (false, false) => d,
            };
            pixels.push(px(r, g, bl));
        }
    }
    let buf = PixelBuffer::new(6, 6, pixels).unwrap();
    let s = check_symmetry(&buf, &Tolerance::default());
    assert!(!s.vertical);
    assert!(!s.horizontal);
    assert_eq!(classify(&s), Category::Neither);
}

#[test]
fn row_striped_buffer_is_vertical_only() {
    // Each row is uniform (vertically mirrored), but the top rows differ
    // from the bottom rows beyond tolerance.
    let buf = row_buffer(
        6,
        &[(200, 0, 0), (200, 0, 0), (200, 0, 0), (0, 0, 200), (0, 0, 200), (0, 0, 200)],
    );
    let s = check_symmetry(&buf, &Tolerance::default());
    assert!(s.vertical);
    assert!(!s.horizontal);
    assert_eq!(classify(&s), Category::VerticalOnly);
}

#[test]
fn column_striped_buffer_is_horizontal_only() {
    let buf = column_buffer(
        6,
        &[(200, 0, 0), (200, 0, 0), (200, 0, 0), (0, 0, 200), (0, 0, 200), (0, 0, 200)],
    );
    let s = check_symmetry(&buf, &Tolerance::default());
    assert!(!s.vertical);
    assert!(s.horizontal);
    assert_eq!(classify(&s), Category::HorizontalOnly);
}

#[test]
fn classify_covers_all_combinations() {
    let mk = |vertical, horizontal| Symmetry { vertical, horizontal };
    assert_eq!(classify(&mk(true, true)), Category::Full);
    assert_eq!(classify(&mk(true, false)), Category::VerticalOnly);
    assert_eq!(classify(&mk(false, true)), Category::HorizontalOnly);
    assert_eq!(classify(&mk(false, false)), Category::Neither);
}

#[test]
fn near_edge_margin_values() {
    assert!(check_near_edge(0, 5, 10, 10));
    assert!(check_near_edge(5, 0, 10, 10));
    assert!(check_near_edge(9, 5, 10, 10));
    assert!(check_near_edge(5, 9, 10, 10));
    assert!(!check_near_edge(1, 1, 10, 10));
    assert!(!check_near_edge(5, 5, 10, 10));
}
