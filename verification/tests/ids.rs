use gpui_gpu::epoch::GpuDeviceEpoch;
use gpui_gpu::image_id::GpuImageIds;

#[test]
fn ids_count_up_from_one() {
    let mut ids = GpuImageIds::new();
    let first = ids.allocate();
    let second = ids.allocate();
    let third = ids.allocate();
    assert_ne!(first, second);
    assert_ne!(second, third);
    assert_ne!(first, third);
    assert!(first < second && second < third);
}

#[test]
fn separate_counters_issue_the_same_sequence() {
    let mut a = GpuImageIds::new();
    let mut b = GpuImageIds::new();
    assert_eq!(a.allocate(), b.allocate());
    assert_eq!(a.allocate(), b.allocate());
}

#[test]
fn epoch_returns_its_value() {
    assert_eq!(GpuDeviceEpoch::new(0).get(), 0);
    assert_eq!(GpuDeviceEpoch::new(42).get(), 42);
    assert!(GpuDeviceEpoch::new(1) < GpuDeviceEpoch::new(2));
    assert_eq!(GpuDeviceEpoch::new(9), GpuDeviceEpoch::new(9));
}
