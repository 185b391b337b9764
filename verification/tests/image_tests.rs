use ray_tracer::image::{pixel_row_col, PIXEL_COUNT, SCREEN_HEIGHT, SCREEN_WIDTH};

#[test]
fn the_raster_is_a_16_to_9_target_of_120_rows() {
    assert_eq!(SCREEN_HEIGHT, 120);
    assert_eq!(SCREEN_WIDTH, 213);
    assert_eq!(PIXEL_COUNT, 25560);
}

#[test]
fn indices_walk_the_raster_row_major() {
    assert_eq!(pixel_row_col(0), (0, 0));
    assert_eq!(pixel_row_col(1), (0, 1));
    assert_eq!(pixel_row_col(SCREEN_WIDTH - 1), (0, SCREEN_WIDTH - 1));
    assert_eq!(pixel_row_col(SCREEN_WIDTH), (1, 0));
    assert_eq!(pixel_row_col(PIXEL_COUNT - 1), (SCREEN_HEIGHT - 1, SCREEN_WIDTH - 1));
}
