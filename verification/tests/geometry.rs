use gpui_gpu::geometry::{Bounds, DevicePixels, Point, Size};

#[test]
fn geometry_constructors_keep_their_parts() {
    let size = Size::new(DevicePixels(3), DevicePixels(4));
    assert_eq!(size, Size { width: DevicePixels(3), height: DevicePixels(4) });
    let origin = Point::new(DevicePixels(1), DevicePixels(2));
    assert_eq!(origin, Point { x: DevicePixels(1), y: DevicePixels(2) });
    let bounds = Bounds::new(origin, size);
    assert_eq!(bounds.origin, origin);
    assert_eq!(bounds.size, size);
}
