use vstd::prelude::*;

verus! {

/// Frames per second the simulation aims at.
pub const FPS: u64 = 60;

/// Whole milliseconds in one frame.
pub const MILLISECS_PER_FRAME: u64 = 1000 / FPS;

/// Width of the window, in pixels.
pub const WIDTH: u32 = 1200;

/// Height of the window, in pixels.
pub const HEIGHT: u32 = 800;

/// Milliseconds to wait after a frame that took `elapsed_ms`, so that frames
/// are at least one frame time apart.
pub fn frame_wait_ms(elapsed_ms: u64) -> (r: u64)
    ensures
        elapsed_ms < MILLISECS_PER_FRAME ==> r == MILLISECS_PER_FRAME - elapsed_ms,
        elapsed_ms >= MILLISECS_PER_FRAME ==> r == 0,
{
    if elapsed_ms < MILLISECS_PER_FRAME {
        MILLISECS_PER_FRAME - elapsed_ms
    } else {
        0
    }
}

/// The time step, in milliseconds, for a frame that took `delta_ms`: at most
/// one frame time, so that a slow frame does not destabilise integration.
pub fn step_ms(delta_ms: u64) -> (r: u64)
    ensures
        r == if delta_ms < MILLISECS_PER_FRAME {
            delta_ms
        } else {
            MILLISECS_PER_FRAME
        },
{
    if delta_ms < MILLISECS_PER_FRAME {
        delta_ms
    } else {
        MILLISECS_PER_FRAME
    }
}

} // verus!
