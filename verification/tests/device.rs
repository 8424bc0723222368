use extendr_api::io::PstreamFormat;
use extendr_api::graphics::device_driver::{
    device_switches, ClippingStrategy, DriverTraits, GraphicDeviceCapabilityTransparency,
    GraphicDeviceCapabilityTransparentBg,
};

#[test]
fn default_driver_switches() {
    let t = DriverTraits {
        use_raster: true,
        use_capture: true,
        use_plot_history: false,
        clipping_strategy: ClippingStrategy::DeviceAndEngine,
        accept_utf8_text: true,
        use_rotated_text_in_contour: false,
    };
    let s = device_switches(t);
    assert!(s.clip_callback && s.raster_callback && s.cap_callback && s.utf8_callbacks);
    assert_eq!((s.can_clip, s.device_clip), (1, 0));
    assert_eq!((s.have_raster, s.have_capture, s.have_locator), (2, 2, 0));
    assert_eq!((s.has_text_utf8, s.want_symbol_utf8), (1, 1));
    assert_eq!((s.display_list_on, s.can_change_gamma, s.can_h_adj), (0, 0, 2));
}

#[test]
fn engine_clipping_ascii_driver_switches() {
    let t = DriverTraits {
        use_raster: false,
        use_capture: false,
        use_plot_history: true,
        clipping_strategy: ClippingStrategy::Engine,
        accept_utf8_text: false,
        use_rotated_text_in_contour: true,
    };
    let s = device_switches(t);
    assert!(!s.clip_callback && !s.raster_callback && !s.cap_callback && !s.utf8_callbacks);
    assert_eq!((s.can_clip, s.device_clip), (0, 0));
    assert_eq!((s.have_raster, s.have_capture), (1, 1));
    assert_eq!((s.has_text_utf8, s.want_symbol_utf8, s.display_list_on), (0, 0, 1));
    assert_eq!(s.use_rotated_text_in_contour, 1);
    let d = device_switches(DriverTraits { clipping_strategy: ClippingStrategy::Device, ..t });
    assert_eq!((d.can_clip, d.device_clip, d.clip_callback), (1, 1, true));
}

#[test]
fn capability_codes() {
    assert_eq!(GraphicDeviceCapabilityTransparency::Unset.code(), 0);
    assert_eq!(GraphicDeviceCapabilityTransparency::Yes.code(), 2);
    assert_eq!(GraphicDeviceCapabilityTransparentBg::No.code(), 1);
    assert_eq!(GraphicDeviceCapabilityTransparentBg::Semi.code(), 3);
}

#[test]
fn stream_format_codes() {
    assert_eq!(PstreamFormat::AnyFormat.code(), 0);
    assert_eq!(PstreamFormat::XdrFormat.code(), 3);
    assert_eq!(PstreamFormat::AsciihexFormat.code(), 4);
}
