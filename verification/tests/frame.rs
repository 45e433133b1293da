use gpui_gpu::frame::{finish_recovery, start_frame, FrameAction};

#[test]
fn live_device_draws_directly() {
    assert_eq!(start_frame(false), FrameAction::DrawScene);
}

#[test]
fn lost_device_is_recovered_first() {
    assert_eq!(start_frame(true), FrameAction::RecoverDevice);
    assert_eq!(finish_recovery(true), FrameAction::DrawScene);
}

#[test]
fn failed_recovery_skips_the_frame() {
    assert_eq!(finish_recovery(false), FrameAction::SkipFrame);
}
