//! Dimensions of the window and of the stage inside it, in pixels.

use vstd::prelude::*;

verus! {

/// Width of the window.
pub const WIDTH: u32 = 800;

/// Height of the window.
pub const HEIGHT: u32 = 600;

/// Side of one block.
pub const BLOCK_SIZE: u32 = 24;

/// Width of the stage: ten blocks.
pub const STAGE_WIDTH: u32 = 240;

/// Height of the stage: twenty blocks.
pub const STAGE_HEIGHT: u32 = 480;

/// Left edge of the stage, which is centred in the window.
pub const STAGE_X: i32 = 280;

/// Top edge of the stage.
pub const STAGE_Y: i32 = 60;

/// Frames per second.
pub const FRAME_RATE: u32 = 60;

/// Frames that pass between two steps of gravity.
pub const FALL_FRAMES: i32 = 60;

/// Length of one frame in nanoseconds.
pub const FRAME_NANOS: u32 = 16_666_666;

/// Side of one block as a mathematical integer.
#[verifier::inline]
pub open spec fn block() -> int {
    24
}

/// The vertical coordinate of the stage's bottom edge.
pub open spec fn floor() -> int {
    STAGE_Y + STAGE_HEIGHT
}

/// The horizontal coordinate of the stage's right edge.
pub open spec fn right_edge() -> int {
    STAGE_X + STAGE_WIDTH
}

/// The stage is ten by twenty blocks and sits in the middle of the window;
/// a frame lasts one second divided by the frame rate.
pub proof fn stage_is_centred()
    ensures
        block() == BLOCK_SIZE,
        STAGE_WIDTH == BLOCK_SIZE * 10,
        STAGE_HEIGHT == BLOCK_SIZE * 20,
        STAGE_X == (WIDTH - STAGE_WIDTH) / 2,
        STAGE_Y == (HEIGHT - STAGE_HEIGHT) / 2,
        FRAME_NANOS == 1_000_000_000int / (FRAME_RATE as int),
        floor() == 540,
        right_edge() == 520,
{
}

/// How long the caller still has to wait, in nanoseconds, once `elapsed`
/// nanoseconds of the current frame have passed: the rest of the frame, or
/// nothing when the frame already took its full length.
pub fn frame_rest(elapsed: u128) -> (rest: u32)
    ensures
        elapsed < FRAME_NANOS ==> rest == FRAME_NANOS - elapsed,
        elapsed >= FRAME_NANOS ==> rest == 0,
{
    if elapsed < FRAME_NANOS as u128 {
        FRAME_NANOS - (elapsed as u32)
    } else {
        0
    }
}

} // verus!
