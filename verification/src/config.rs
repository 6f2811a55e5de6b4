//! Configuration of the voice-activity detector.

use vstd::prelude::*;

verus! {

/// Largest accepted `threshold_den`. Together with the window and
/// sample-count caps it keeps every threshold computation inside `u128`.
pub const MAX_THRESHOLD_DEN: u32 = 1024;

/// Largest accepted `frame_size` and `step_size`, in samples
/// (about a minute of audio at 16 kHz).
pub const MAX_WINDOW: usize = 1048576;

/// Settings of the adaptive energy classifier.
///
/// The detection threshold is the exact fraction
/// `threshold_num / threshold_den` of the per-frame min-max energy
/// range; it must lie strictly between 0 and 1.
#[derive(Clone, Copy, Debug)]
pub struct VadConfig {
    /// Numerator of the threshold fraction.
    pub threshold_num: u32,
    /// Denominator of the threshold fraction.
    pub threshold_den: u32,
    /// Largest run of consecutive silent frames that is still reported
    /// as voiced before the hangover expires.
    pub silence_frame_limit: usize,
    /// Samples per classification window.
    pub frame_size: usize,
    /// Sample advance between consecutive frames.
    pub step_size: usize,
}

impl VadConfig {
    /// A configuration is well formed when the threshold fraction lies
    /// strictly between 0 and 1 and the sizes are positive and within
    /// the caps that keep the exact fixed-point arithmetic overflow-free.
    pub open spec fn wf(self) -> bool {
        &&& 0 < self.threshold_num < self.threshold_den <= MAX_THRESHOLD_DEN
        &&& 1 <= self.frame_size <= MAX_WINDOW
        &&& 1 <= self.step_size <= MAX_WINDOW
    }
}

/// The default settings: threshold 1/10, non-overlapping 160-sample
/// frames (10 ms at 16 kHz), hangover limit of 20 frames.
pub open spec fn default_config() -> VadConfig {
    VadConfig {
        threshold_num: 1,
        threshold_den: 10,
        silence_frame_limit: 20,
        frame_size: 160,
        step_size: 160,
    }
}

impl Default for VadConfig {
    fn default() -> (c: VadConfig)
        ensures
            c == default_config(),
            c.wf(),
    {
        VadConfig {
            threshold_num: 1,
            threshold_den: 10,
            silence_frame_limit: 20,
            frame_size: 160,
            step_size: 160,
        }
    }
}

} // verus!
