use vstd::prelude::*;

verus! {

/// Adaptive-threshold window configuration for the marker detector.
///
/// The detector binarizes the image with local thresholds computed over
/// square windows, sweeping the window size from `win_size_min` to
/// `win_size_max` in increments of `win_size_step`. These three integers
/// are the only tunable detection parameters; they are fixed when a
/// session is constructed and handed to every detector invocation of
/// that session unchanged.
#[derive(Clone, Copy, PartialEq, Eq, Structural, Debug)]
pub struct DetectionParameters {
    pub win_size_min: i32,
    pub win_size_max: i32,
    pub win_size_step: i32,
}

impl DetectionParameters {
    /// Builds a parameter set holding exactly the given window bounds.
    pub fn new(win_size_min: i32, win_size_max: i32, win_size_step: i32) -> (p:
        DetectionParameters)
        ensures
            p.win_size_min == win_size_min,
            p.win_size_max == win_size_max,
            p.win_size_step == win_size_step,
    {
        DetectionParameters { win_size_min, win_size_max, win_size_step }
    }
}

/// A capture mode requested of the frame source: frame width and height
/// in pixels and the frame rate in frames per second.
///
/// Whether a device supports the mode is decided by the device when the
/// driver configures it; the library only carries the requested values.
#[derive(Clone, Copy, PartialEq, Eq, Structural, Debug)]
pub struct CaptureConfig {
    pub width: u32,
    pub height: u32,
    pub fps: u32,
}

impl CaptureConfig {
    /// Builds a capture mode holding exactly the given values.
    pub fn new(width: u32, height: u32, fps: u32) -> (c: CaptureConfig)
        ensures
            c.width == width,
            c.height == height,
            c.fps == fps,
    {
        CaptureConfig { width, height, fps }
    }
}

} // verus!
