//! The decisions a platform renderer makes while presenting a frame on a
//! device that may have been lost.
use vstd::prelude::*;

verus! {

/// What the renderer does next while presenting a frame.
#[derive(Clone, Copy, Debug, Eq, PartialEq, Structural)]
pub enum FrameAction {
    /// The device was lost: rebuild it before drawing.
    RecoverDevice,
    /// Draw the scene on the current device.
    DrawScene,
    /// Recovery failed: report it and leave this frame undrawn.
    SkipFrame,
}

/// The first step of a frame: recover a lost device, or draw.
pub open spec fn frame_start(device_lost: bool) -> FrameAction {
    if device_lost {
        FrameAction::RecoverDevice
    } else {
        FrameAction::DrawScene
    }
}

/// The step after an attempt to recover the device: draw on success, skip otherwise.
pub open spec fn after_recovery(recovered: bool) -> FrameAction {
    if recovered {
        FrameAction::DrawScene
    } else {
        FrameAction::SkipFrame
    }
}

/// Decides how a frame starts, given whether the device was reported lost.
pub fn start_frame(device_lost: bool) -> (action: FrameAction)
    ensures
        action == frame_start(device_lost),
{
    if device_lost {
        FrameAction::RecoverDevice
    } else {
        FrameAction::DrawScene
    }
}

/// Decides how a frame goes on after the renderer tried to recover the device.
pub fn finish_recovery(recovered: bool) -> (action: FrameAction)
    ensures
        action == after_recovery(recovered),
{
    if recovered {
        FrameAction::DrawScene
    } else {
        FrameAction::SkipFrame
    }
}

/// Whether a frame ends up drawn, when the device was lost or not and a
/// recovery, if one was attempted, succeeded or not.
pub open spec fn frame_is_drawn(device_lost: bool, recovered: bool) -> bool {
    match frame_start(device_lost) {
        FrameAction::RecoverDevice => after_recovery(recovered) == FrameAction::DrawScene,
        action => action == FrameAction::DrawScene,
    }
}

/// A frame is drawn exactly when the device was not lost or its recovery
/// succeeded: a scene is never drawn on a lost device, and a failed recovery
/// leaves the frame undrawn rather than retrying.
pub proof fn drawn_only_on_live_device(device_lost: bool, recovered: bool)
    ensures
        frame_is_drawn(device_lost, recovered) <==> (!device_lost || recovered),
        frame_start(device_lost) != FrameAction::SkipFrame,
        after_recovery(recovered) != FrameAction::RecoverDevice,
{
}

} // verus!
