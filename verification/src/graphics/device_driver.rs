//! The settings of a graphics device that follow from what its driver
//! implements: which callbacks R's graphics engine gets, and the capability
//! codes it reads from the device description.
use vstd::prelude::*;

verus! {

/// Who clips what a device draws.
#[derive(PartialEq, Eq, Structural, Debug, Clone, Copy)]
pub enum ClippingStrategy {
    /// The device clips.
    Device,
    /// The device clips, and the engine clips too.
    DeviceAndEngine,
    /// Only the engine clips.
    Engine,
}

/// Whether a device draws semi-transparent colors.
#[derive(PartialEq, Eq, Structural, Debug, Clone, Copy)]
pub enum GraphicDeviceCapabilityTransparency {
    Unset,
    No,
    Yes,
}

/// Whether a device draws a transparent background.
#[derive(PartialEq, Eq, Structural, Debug, Clone, Copy)]
pub enum GraphicDeviceCapabilityTransparentBg {
    Unset,
    No,
    Fully,
    Semi,
}

impl GraphicDeviceCapabilityTransparency {
    /// The code of the capability in the device description.
    pub fn code(&self) -> (c: i32)
        ensures
            c == match *self {
                GraphicDeviceCapabilityTransparency::Unset => 0i32,
                GraphicDeviceCapabilityTransparency::No => 1,
                GraphicDeviceCapabilityTransparency::Yes => 2,
            },
    {
        match self {
            GraphicDeviceCapabilityTransparency::Unset => 0,
            GraphicDeviceCapabilityTransparency::No => 1,
            GraphicDeviceCapabilityTransparency::Yes => 2,
        }
    }
}

impl GraphicDeviceCapabilityTransparentBg {
    /// The code of the capability in the device description.
    pub fn code(&self) -> (c: i32)
        ensures
            c == match *self {
                GraphicDeviceCapabilityTransparentBg::Unset => 0i32,
                GraphicDeviceCapabilityTransparentBg::No => 1,
                GraphicDeviceCapabilityTransparentBg::Fully => 2,
                GraphicDeviceCapabilityTransparentBg::Semi => 3,
            },
    {
        match self {
            GraphicDeviceCapabilityTransparentBg::Unset => 0,
            GraphicDeviceCapabilityTransparentBg::No => 1,
            GraphicDeviceCapabilityTransparentBg::Fully => 2,
            GraphicDeviceCapabilityTransparentBg::Semi => 3,
        }
    }
}

/// What a driver declares about itself, with the one switch that its
/// device description sets (whether rotated text is used in contours).
#[derive(PartialEq, Eq, Structural, Debug, Clone, Copy)]
pub struct DriverTraits {
    pub use_raster: bool,
    pub use_capture: bool,
    pub use_plot_history: bool,
    pub clipping_strategy: ClippingStrategy,
    pub accept_utf8_text: bool,
    pub use_rotated_text_in_contour: bool,
}

/// The switches of a device description that follow from its driver:
/// which optional callbacks are installed, and the flags and capability
/// codes (R's `Rboolean`s are 0 or 1).
#[derive(PartialEq, Eq, Structural, Debug, Clone, Copy)]
pub struct DeviceSwitches {
    /// Whether the `clip` callback is installed.
    pub clip_callback: bool,
    /// Whether the `raster` callback is installed.
    pub raster_callback: bool,
    /// Whether the `cap` callback is installed.
    pub cap_callback: bool,
    /// Whether `textUTF8` and `strWidthUTF8` are installed.
    pub utf8_callbacks: bool,
    pub can_clip: i32,
    pub device_clip: i32,
    pub can_change_gamma: i32,
    pub can_h_adj: i32,
    pub display_list_on: i32,
    pub has_text_utf8: i32,
    pub want_symbol_utf8: i32,
    pub use_rotated_text_in_contour: i32,
    pub have_raster: i32,
    pub have_capture: i32,
    pub have_locator: i32,
}

/// An `Rboolean`: 1 for true, 0 for false.
pub open spec fn rbool(b: bool) -> i32 {
    if b {
        1
    } else {
        0
    }
}

/// The switches of a device whose driver declares `t`: the engine clips
/// unless the device alone does, the device clips unless only the engine
/// does; rasters and captures are supported (code 2) or not (code 1) as the
/// driver implements them; the locator is left unset (0); text may be
/// adjusted freely (code 2); gamma cannot change.
pub open spec fn switches_of(t: DriverTraits) -> DeviceSwitches {
    DeviceSwitches {
        clip_callback: t.clipping_strategy != ClippingStrategy::Engine,
        raster_callback: t.use_raster,
        cap_callback: t.use_capture,
        utf8_callbacks: t.accept_utf8_text,
        can_clip: rbool(t.clipping_strategy != ClippingStrategy::Engine),
        device_clip: rbool(t.clipping_strategy == ClippingStrategy::Device),
        can_change_gamma: 0,
        can_h_adj: 2,
        display_list_on: rbool(t.use_plot_history),
        has_text_utf8: rbool(t.accept_utf8_text),
        want_symbol_utf8: rbool(t.accept_utf8_text),
        use_rotated_text_in_contour: rbool(t.use_rotated_text_in_contour),
        have_raster: if t.use_raster {
            2
        } else {
            1
        },
        have_capture: if t.use_capture {
            2
        } else {
            1
        },
        have_locator: 0,
    }
}

fn rboolean(b: bool) -> (r: i32)
    ensures
        r == rbool(b),
{
    if b {
        1
    } else {
        0
    }
}

/// The switches of the description of a device whose driver declares `t`.
pub fn device_switches(t: DriverTraits) -> (s: DeviceSwitches)
    ensures
        s == switches_of(t),
{
    let engine_only = match t.clipping_strategy {
        ClippingStrategy::Engine => true,
        _ => false,
    };
    let device_only = match t.clipping_strategy {
        ClippingStrategy::Device => true,
        _ => false,
    };
    DeviceSwitches {
        clip_callback: !engine_only,
        raster_callback: t.use_raster,
        cap_callback: t.use_capture,
        utf8_callbacks: t.accept_utf8_text,
        can_clip: rboolean(!engine_only),
        device_clip: rboolean(device_only),
        can_change_gamma: 0,
        can_h_adj: 2,
        display_list_on: rboolean(t.use_plot_history),
        has_text_utf8: rboolean(t.accept_utf8_text),
        want_symbol_utf8: rboolean(t.accept_utf8_text),
        use_rotated_text_in_contour: rboolean(t.use_rotated_text_in_contour),
        have_raster: if t.use_raster {
            2
        } else {
            1
        },
        have_capture: if t.use_capture {
            2
        } else {
            1
        },
        have_locator: 0,
    }
}

/// Every switch follows what the driver declares. A flag is 1 exactly when
/// its declaration holds and 0 otherwise: rotated text in contours when the
/// driver uses it, the display list when it keeps a plot history, UTF-8
/// text and symbols when it accepts UTF-8, clipping unless only the engine
/// clips, device clipping only when the device alone clips. The optional
/// callbacks are installed exactly when the driver implements them, and
/// rasters and captures are coded 2 when implemented and 1 when not.
pub proof fn lemma_switches_follow_driver(t: DriverTraits)
    ensures
        ({
            let s = switches_of(t);
            &&& (s.use_rotated_text_in_contour == 1) == t.use_rotated_text_in_contour
            &&& (s.use_rotated_text_in_contour == 0) == !t.use_rotated_text_in_contour
            &&& (s.display_list_on == 1) == t.use_plot_history
            &&& (s.display_list_on == 0) == !t.use_plot_history
            &&& (s.has_text_utf8 == 1) == t.accept_utf8_text
            &&& (s.has_text_utf8 == 0) == !t.accept_utf8_text
            &&& (s.want_symbol_utf8 == 1) == t.accept_utf8_text
            &&& (s.want_symbol_utf8 == 0) == !t.accept_utf8_text
            &&& s.utf8_callbacks == t.accept_utf8_text
            &&& (s.can_clip == 1) == (t.clipping_strategy != ClippingStrategy::Engine)
            &&& (s.can_clip == 0) == (t.clipping_strategy == ClippingStrategy::Engine)
            &&& s.clip_callback == (t.clipping_strategy != ClippingStrategy::Engine)
            &&& (s.device_clip == 1) == (t.clipping_strategy == ClippingStrategy::Device)
            &&& (s.device_clip == 0) == (t.clipping_strategy != ClippingStrategy::Device)
            &&& s.raster_callback == t.use_raster
            &&& (s.have_raster == 2) == t.use_raster
            &&& (s.have_raster == 1) == !t.use_raster
            &&& s.cap_callback == t.use_capture
            &&& (s.have_capture == 2) == t.use_capture
            &&& (s.have_capture == 1) == !t.use_capture
            &&& s.have_locator == 0
            &&& s.can_change_gamma == 0
            &&& s.can_h_adj == 2
        }),
{
}

} // verus!
