use tao_ohos::geometry::{PhysicalPosition, PhysicalSize, Rect};
use tao_ohos::ids::{DeviceId, WindowId};
use tao_ohos::monitor::{point_on_display, MonitorHandle, VideoMode};

fn monitor(w: u32, h: u32) -> MonitorHandle {
    MonitorHandle {
        display_width: w,
        display_height: h,
        content_rect: Rect { top: 0, left: 0, width: 1200, height: 2400 },
        refresh_rate: 120,
    }
}

#[test]
fn monitor_size_prefers_display_manager() {
    assert_eq!(monitor(1260, 2720).size(), PhysicalSize { width: 1260, height: 2720 });
    assert_eq!(monitor(0, 2720).size(), PhysicalSize { width: 1200, height: 2400 });
    assert_eq!(monitor(1260, 0).size(), PhysicalSize { width: 1200, height: 2400 });
}

#[test]
fn monitor_name_position_and_mode() {
    let m = monitor(1260, 2720);
    assert_eq!(m.name().as_deref(), Some("OpenHarmony Device"));
    assert_eq!(m.position(), PhysicalPosition { x: 0, y: 0 });
    let modes = m.video_modes();
    assert_eq!(modes, vec![VideoMode { size: (1260, 2720), bit_depth: 32, refresh_rate: 120 }]);
    assert_eq!(modes[0].size(), PhysicalSize { width: 1260, height: 2720 });
    assert_eq!(modes[0].bit_depth(), 32);
    assert_eq!(modes[0].refresh_rate(), 120);
}

#[test]
fn ids() {
    assert_eq!(WindowId::dummy(), WindowId(0));
    assert_eq!(DeviceId::dummy(), DeviceId(0));
    let id = WindowId(-2);
    let n: u64 = id.into();
    assert_eq!(n, u64::MAX - 1);
    assert_eq!(WindowId::from(n), id);
    assert_eq!(WindowId::from_u64(7).to_u64(), 7);
}


#[test]
fn point_on_display_bounds() {
    let b = |v: f64| v.to_bits();
    let (w, h) = (b(1260.0), b(2720.0));
    assert!(point_on_display(b(0.0), b(0.0), w, h));
    assert!(point_on_display(b(-0.0), b(100.5), w, h));
    assert!(point_on_display(b(1259.999), b(2719.5), w, h));
    assert!(!point_on_display(b(1260.0), b(10.0), w, h));
    assert!(!point_on_display(b(10.0), b(2720.0), w, h));
    assert!(!point_on_display(b(-0.5), b(10.0), w, h));
    assert!(!point_on_display(b(f64::NAN), b(10.0), w, h));
    assert!(!point_on_display(b(f64::INFINITY), b(10.0), w, h));
    assert!(!point_on_display(b(1.0), b(1.0), b(0.0), h));
    assert!(!point_on_display(b(1.0), b(1.0), w, b(0.0)));
}
