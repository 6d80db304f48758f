use hypatia::render::{
    update_needs_frame, FrameInfo, RenderParams, FRAME_BLOCK_VSYNC, FRAME_PRESENT, FRAME_REDRAW,
    PARAM_BLOCK_FOR_TARGET_TIME, PARAM_DEPTH, PARAM_FLIP_Y, PARAM_SKIP_RENDERING,
};
use hypatia::time::Instant;

#[test]
fn default_render_params() {
    let params = RenderParams::builder().build();
    assert_eq!(
        params.int_params(),
        [
            (PARAM_BLOCK_FOR_TARGET_TIME, 1),
            (PARAM_DEPTH, 0),
            (PARAM_FLIP_Y, 1),
            (PARAM_SKIP_RENDERING, 0),
        ]
    );
}

#[test]
fn set_render_params() {
    let params = RenderParams::builder()
        .block_for_target_time(false)
        .flip_y(true)
        .control_surface_depth(10)
        .skip_rendering(true)
        .build();
    assert_eq!(
        params.int_params(),
        [
            (PARAM_BLOCK_FOR_TARGET_TIME, 0),
            (PARAM_DEPTH, 10),
            (PARAM_FLIP_Y, 1),
            (PARAM_SKIP_RENDERING, 1),
        ]
    );
    assert_eq!(PARAM_BLOCK_FOR_TARGET_TIME, 12);
    assert_eq!(PARAM_FLIP_Y, 4);
}

#[test]
fn frame_info_flags() {
    let info = FrameInfo::from_raw(FRAME_PRESENT | FRAME_BLOCK_VSYNC, 1_500);
    assert!(info.is_present());
    assert!(info.blocks_vsync());
    assert!(!info.is_redraw());
    assert!(!info.is_repeat());
    assert_eq!(info.target_time, Instant::from_timestamp_nanos(1_500_000));
    let redraw = FrameInfo::from_raw(FRAME_REDRAW, 0);
    assert!(redraw.is_redraw());
    assert!(!redraw.is_present());
}

#[test]
fn update_flags() {
    assert!(update_needs_frame(1));
    assert!(update_needs_frame(3));
    assert!(!update_needs_frame(2));
    assert!(!update_needs_frame(0));
}
