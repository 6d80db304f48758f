//! Parameters of a video frame render, and what the player reports about the next frame.
use vstd::prelude::*;
use crate::time::{Instant, NANOS_PER_MICRO};

verus! {

/// The player's render parameter type of the target framebuffer.
pub const PARAM_OPENGL_FBO: u32 = 3;

/// The player's render parameter type of the vertical flip flag.
pub const PARAM_FLIP_Y: u32 = 4;

/// The player's render parameter type of the surface depth.
pub const PARAM_DEPTH: u32 = 5;

/// The player's render parameter type of the block-for-target-time flag.
pub const PARAM_BLOCK_FOR_TARGET_TIME: u32 = 12;

/// The player's render parameter type of the skip-rendering flag.
pub const PARAM_SKIP_RENDERING: u32 = 13;

/// The update flag meaning that a new video frame must be rendered.
pub const UPDATE_FRAME: u64 = 1;

/// Frame flag: there is a next frame.
pub const FRAME_PRESENT: u32 = 1;

/// Frame flag: the frame is a redraw request, not a new video frame.
pub const FRAME_REDRAW: u32 = 2;

/// Frame flag: the frame reproduces the previous frame.
pub const FRAME_REPEAT: u32 = 4;

/// Frame flag: the player expects the render thread to block on vertical sync.
pub const FRAME_BLOCK_VSYNC: u32 = 8;

/// Whether the update flags that the renderer returned ask for a new frame to be rendered.
pub fn update_needs_frame(flags: u64) -> (r: bool)
    ensures
        r == (flags & UPDATE_FRAME != 0),
{
    flags & UPDATE_FRAME != 0
}

/// Information about the next video frame that will be rendered.
#[derive(Clone, Copy, Debug, PartialEq, Eq, Structural)]
pub struct FrameInfo {
    /// Flags describing the next frame.
    pub flags: u32,
    /// The absolute time at which the frame is supposed to be displayed.
    pub target_time: Instant,
}

impl FrameInfo {
    /// Frame information from the raw report of the player, whose target time is in
    /// microseconds; the time in nanoseconds must fit in 64 bits.
    pub fn from_raw(flags: u32, target_time_micros: u64) -> (r: Self)
        requires
            target_time_micros * NANOS_PER_MICRO <= u64::MAX,
        ensures
            r.flags == flags,
            r.target_time@ == target_time_micros * NANOS_PER_MICRO,
    {
        FrameInfo { flags, target_time: Instant::from_timestamp_micros(target_time_micros) }
    }

    /// Whether there is actually a next frame.
    pub fn is_present(&self) -> (r: bool)
        ensures
            r == (self.flags & FRAME_PRESENT != 0),
    {
        self.flags & FRAME_PRESENT != 0
    }

    /// Whether the frame is a redraw request rather than a new video frame.
    pub fn is_redraw(&self) -> (r: bool)
        ensures
            r == (self.flags & FRAME_REDRAW != 0),
    {
        self.flags & FRAME_REDRAW != 0
    }

    /// Whether the frame reproduces the previous frame.
    pub fn is_repeat(&self) -> (r: bool)
        ensures
            r == (self.flags & FRAME_REPEAT != 0),
    {
        self.flags & FRAME_REPEAT != 0
    }

    /// Whether the player expects the render thread to block on vertical sync.
    pub fn blocks_vsync(&self) -> (r: bool)
        ensures
            r == (self.flags & FRAME_BLOCK_VSYNC != 0),
    {
        self.flags & FRAME_BLOCK_VSYNC != 0
    }
}

/// A set of parameters for rendering one frame.
#[derive(Clone, Copy, Debug, PartialEq, Eq, Structural)]
pub struct RenderParams {
    flip_y: bool,
    block_for_target_time: bool,
    skip_rendering: bool,
    control_surface_depth: u8,
}

/// Builds render parameters; every parameter not set takes its default.
#[derive(Clone, Copy, Debug)]
pub struct RenderParamsBuilder {
    flip_y: Option<bool>,
    block_for_target_time: Option<bool>,
    skip_rendering: Option<bool>,
    control_surface_depth: Option<u8>,
}

impl RenderParams {
    /// Whether the Y axis of the rendered frame is flipped.
    pub closed spec fn spec_flip_y(&self) -> bool {
        self.flip_y
    }

    /// Whether the render call blocks until the frame's target time.
    pub closed spec fn spec_block_for_target_time(&self) -> bool {
        self.block_for_target_time
    }

    /// Whether the rendering step is skipped.
    pub closed spec fn spec_skip_rendering(&self) -> bool {
        self.skip_rendering
    }

    /// The depth of the target surface in bits per channel, 0 for the default.
    pub closed spec fn spec_control_surface_depth(&self) -> u8 {
        self.control_surface_depth
    }

    /// Starts building parameters with none set.
    pub fn builder() -> (r: RenderParamsBuilder)
        ensures
            r.spec_unset(),
    {
        RenderParamsBuilder {
            flip_y: None,
            block_for_target_time: None,
            skip_rendering: None,
            control_surface_depth: None,
        }
    }

    /// The integer parameters that a render call passes after the framebuffer, in order:
    /// block-for-target-time, depth, flip, skip-rendering, each with its parameter type.
    pub fn int_params(&self) -> (r: [(u32, i32); 4])
        ensures
            r@ == seq![
                (PARAM_BLOCK_FOR_TARGET_TIME, if self.spec_block_for_target_time() { 1i32 } else { 0i32 }),
                (PARAM_DEPTH, self.spec_control_surface_depth() as i32),
                (PARAM_FLIP_Y, if self.spec_flip_y() { 1i32 } else { 0i32 }),
                (PARAM_SKIP_RENDERING, if self.spec_skip_rendering() { 1i32 } else { 0i32 }),
            ],
    {
        let block: i32 = if self.block_for_target_time { 1 } else { 0 };
        let flip: i32 = if self.flip_y { 1 } else { 0 };
        let skip: i32 = if self.skip_rendering { 1 } else { 0 };
        let r = [
            (PARAM_BLOCK_FOR_TARGET_TIME, block),
            (PARAM_DEPTH, self.control_surface_depth as i32),
            (PARAM_FLIP_Y, flip),
            (PARAM_SKIP_RENDERING, skip),
        ];
        assert(r@ =~= seq![
            (PARAM_BLOCK_FOR_TARGET_TIME, block),
            (PARAM_DEPTH, self.control_surface_depth as i32),
            (PARAM_FLIP_Y, flip),
            (PARAM_SKIP_RENDERING, skip),
        ]);
        r
    }
}

impl RenderParamsBuilder {
    /// No parameter is set yet.
    pub closed spec fn spec_unset(&self) -> bool {
        &&& self.flip_y is None
        &&& self.block_for_target_time is None
        &&& self.skip_rendering is None
        &&& self.control_surface_depth is None
    }

    /// The flip flag set so far.
    pub closed spec fn spec_flip_y(&self) -> Option<bool> {
        self.flip_y
    }

    /// The block-for-target-time flag set so far.
    pub closed spec fn spec_block_for_target_time(&self) -> Option<bool> {
        self.block_for_target_time
    }

    /// The skip-rendering flag set so far.
    pub closed spec fn spec_skip_rendering(&self) -> Option<bool> {
        self.skip_rendering
    }

    /// The surface depth set so far.
    pub closed spec fn spec_control_surface_depth(&self) -> Option<u8> {
        self.control_surface_depth
    }

    /// Sets whether the Y axis of the rendered frame is flipped (default: flipped).
    pub fn flip_y(self, value: bool) -> (r: Self)
        ensures
            r.spec_flip_y() == Some(value),
            r.spec_block_for_target_time() == self.spec_block_for_target_time(),
            r.spec_skip_rendering() == self.spec_skip_rendering(),
            r.spec_control_surface_depth() == self.spec_control_surface_depth(),
    {
        RenderParamsBuilder { flip_y: Some(value), ..self }
    }

    /// Sets whether the render call blocks until the frame's target time (default: it does).
    pub fn block_for_target_time(self, value: bool) -> (r: Self)
        ensures
            r.spec_block_for_target_time() == Some(value),
            r.spec_flip_y() == self.spec_flip_y(),
            r.spec_skip_rendering() == self.spec_skip_rendering(),
            r.spec_control_surface_depth() == self.spec_control_surface_depth(),
    {
        RenderParamsBuilder { block_for_target_time: Some(value), ..self }
    }

    /// Sets whether the rendering step is skipped (default: not skipped).
    pub fn skip_rendering(self, value: bool) -> (r: Self)
        ensures
            r.spec_skip_rendering() == Some(value),
            r.spec_flip_y() == self.spec_flip_y(),
            r.spec_block_for_target_time() == self.spec_block_for_target_time(),
            r.spec_control_surface_depth() == self.spec_control_surface_depth(),
    {
        RenderParamsBuilder { skip_rendering: Some(value), ..self }
    }

    /// Sets the depth of the target surface in bits per channel (default: 0, meaning 8).
    pub fn control_surface_depth(self, value: u8) -> (r: Self)
        ensures
            r.spec_control_surface_depth() == Some(value),
            r.spec_flip_y() == self.spec_flip_y(),
            r.spec_block_for_target_time() == self.spec_block_for_target_time(),
            r.spec_skip_rendering() == self.spec_skip_rendering(),
    {
        RenderParamsBuilder { control_surface_depth: Some(value), ..self }
    }

    /// Builds the parameters, taking the default of each one not set.
    pub fn build(self) -> (r: RenderParams)
        ensures
            r.spec_flip_y() == (match self.spec_flip_y() {
                Some(v) => v,
                None => true,
            }),
            r.spec_block_for_target_time() == (match self.spec_block_for_target_time() {
                Some(v) => v,
                None => true,
            }),
            r.spec_skip_rendering() == (match self.spec_skip_rendering() {
                Some(v) => v,
                None => false,
            }),
            r.spec_control_surface_depth() == (match self.spec_control_surface_depth() {
                Some(v) => v,
                None => 0u8,
            }),
    {
        RenderParams {
            flip_y: match self.flip_y {
                Some(v) => v,
                None => true,
            },
            block_for_target_time: match self.block_for_target_time {
                Some(v) => v,
                None => true,
            },
            skip_rendering: match self.skip_rendering {
                Some(v) => v,
                None => false,
            },
            control_surface_depth: match self.control_surface_depth {
                Some(v) => v,
                None => 0,
            },
        }
    }
}

} // verus!
