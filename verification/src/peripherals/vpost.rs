//! Display controller interface: the frame-buffer format vocabulary and
//! the display-refresh stop predicate the scheduler's pre-instruction hook
//! evaluates. Pixel conversion and presentation are host-side work.
use vstd::prelude::*;

use crate::device::{ExtraState, StopReasonKind};

verus! {

/// Frame-buffer pixel formats selectable in the display control register.
#[derive(Debug, Clone, Copy, PartialEq, Eq, Structural)]
pub enum FrameBufferFormat {
    RGB555,
    RGB565,
    XRGB,
    RGBX,
    Cb0Y0Cr0Y1,
    Y0Cb0Y1Cr0,
    Cr0Y0Cb0Y1,
    Y0Cr0Y1Cb0,
}

impl FrameBufferFormat {
    /// The 3-bit encoding in the control register.
    pub open spec fn spec_encoding(self) -> u32 {
        match self {
            FrameBufferFormat::RGB555 => 0,
            FrameBufferFormat::RGB565 => 1,
            FrameBufferFormat::XRGB => 2,
            FrameBufferFormat::RGBX => 3,
            FrameBufferFormat::Cb0Y0Cr0Y1 => 4,
            FrameBufferFormat::Y0Cb0Y1Cr0 => 5,
            FrameBufferFormat::Cr0Y0Cb0Y1 => 6,
            FrameBufferFormat::Y0Cr0Y1Cb0 => 7,
        }
    }

    /// The format a 3-bit encoding denotes.
    pub fn from_encoding(v: u32) -> (r: FrameBufferFormat)
        ensures
            v < 8 ==> r.spec_encoding() == v,
            v >= 8 ==> r == FrameBufferFormat::Y0Cr0Y1Cb0,
    {
        if v == 0 {
            FrameBufferFormat::RGB555
        } else if v == 1 {
            FrameBufferFormat::RGB565
        } else if v == 2 {
            FrameBufferFormat::XRGB
        } else if v == 3 {
            FrameBufferFormat::RGBX
        } else if v == 4 {
            FrameBufferFormat::Cb0Y0Cr0Y1
        } else if v == 5 {
            FrameBufferFormat::Y0Cb0Y1Cr0
        } else if v == 6 {
            FrameBufferFormat::Cr0Y0Cb0Y1
        } else {
            FrameBufferFormat::Y0Cr0Y1Cb0
        }
    }
}

/// Bus widths of the parallel RGB interface.
#[derive(Debug, Clone, Copy, PartialEq, Eq, Structural)]
pub enum ParallelRGBBusType {
    RGB565,
    RGB666,
    RGB888,
    Reserved3,
}

impl ParallelRGBBusType {
    /// The 2-bit encoding in the control register.
    pub open spec fn spec_encoding(self) -> u32 {
        match self {
            ParallelRGBBusType::RGB565 => 0,
            ParallelRGBBusType::RGB666 => 1,
            ParallelRGBBusType::RGB888 => 2,
            ParallelRGBBusType::Reserved3 => 3,
        }
    }

    /// The bus type a 2-bit encoding denotes.
    pub fn from_encoding(v: u32) -> (r: ParallelRGBBusType)
        ensures
            v < 4 ==> r.spec_encoding() == v,
            v >= 4 ==> r == ParallelRGBBusType::Reserved3,
    {
        if v == 0 {
            ParallelRGBBusType::RGB565
        } else if v == 1 {
            ParallelRGBBusType::RGB666
        } else if v == 2 {
            ParallelRGBBusType::RGB888
        } else {
            ParallelRGBBusType::Reserved3
        }
    }
}

/// Display-refresh stop predicate: at every `vsync`-th instruction step,
/// request a frame-step stop.
pub fn generate_stop_condition(state: &mut ExtraState, steps: u64)
    requires
        old(state).clk.tick_config.vsync > 0,
    ensures
        steps % old(state).clk.tick_config.vsync == 0 ==> *final(state) == (ExtraState {
            stop_reason: old(state).stop_reason.spec_insert(StopReasonKind::FrameStep),
            ..*old(state)
        }),
        steps % old(state).clk.tick_config.vsync != 0 ==> *final(state) == *old(state),
{
    let div_vsync = state.clk.tick_config.vsync;
    if steps % div_vsync == 0 {
        crate::device::request_stop(state, StopReasonKind::FrameStep);
    }
}

} // verus!
