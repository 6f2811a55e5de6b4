//! Dual-channel evaluation: two independent scans, run as a fork-join
//! pair, and the channel-selection policy.

use vstd::prelude::*;
use crate::config::VadConfig;
use crate::detector::idx_view;
use crate::detector::spec_scan;
use crate::detector::VoiceActivityDetector;
use crate::detector::MAX_SAMPLES;

verus! {

/// Which of the two channels the evaluator picked.
#[derive(Clone, Copy, Debug, PartialEq, Eq, Structural)]
pub enum Channel {
    Left,
    Right,
}

/// The selection policy: the channel with more voiced frames, the left
/// one on a tie.
pub open spec fn spec_select(cfg: VadConfig, left: Seq<i32>, right: Seq<i32>) -> Channel {
    if spec_scan(cfg, left).len() >= spec_scan(cfg, right).len() {
        Channel::Left
    } else {
        Channel::Right
    }
}

/// Relies on rayon::join: it calls both closures, possibly in
/// parallel, and returns the pair of their return values. Each closure
/// scans one channel with its own fresh detector, so the pair is the
/// two channels' voiced-frame index lists.
#[verifier::external_body]
fn join_scans(config: &VadConfig, left: &Vec<i32>, right: &Vec<i32>) -> (r: (Vec<usize>, Vec<
    usize,
>))
    requires
        config.wf(),
        left@.len() <= MAX_SAMPLES,
        right@.len() <= MAX_SAMPLES,
    ensures
        idx_view(r.0@) == spec_scan(*config, left@),
        idx_view(r.1@) == spec_scan(*config, right@),
{
    let mut vad_left = VoiceActivityDetector::new(*config);
    let mut vad_right = VoiceActivityDetector::new(*config);
    rayon::join(|| vad_left.process_channel(left), || vad_right.process_channel(right))
}

/// Scans both channels with independent fresh detectors and picks one
/// channel's voiced-frame index list: the left channel's when it has
/// at least as many voiced frames as the right one — so ties go to the
/// left channel — and the right channel's otherwise.
pub fn evaluate_channels(config: &VadConfig, left: &Vec<i32>, right: &Vec<i32>) -> (r: (
    Channel,
    Vec<usize>,
))
    requires
        config.wf(),
        left@.len() == right@.len(),
        left@.len() <= MAX_SAMPLES,
    ensures
        r.0 == spec_select(*config, left@, right@),
        r.0 == Channel::Left ==> idx_view(r.1@) == spec_scan(*config, left@),
        r.0 == Channel::Right ==> idx_view(r.1@) == spec_scan(*config, right@),
        spec_scan(*config, left@).len() == spec_scan(*config, right@).len() ==> r.0
            == Channel::Left,
{
    let (left_frames, right_frames) = join_scans(config, left, right);
    if left_frames.len() >= right_frames.len() {
        (Channel::Left, left_frames)
    } else {
        (Channel::Right, right_frames)
    }
}

/// Tie-break: two channels with equally many voiced frames select the
/// left channel.
pub proof fn lemma_tie_break(cfg: VadConfig, left: Seq<i32>, right: Seq<i32>)
    requires
        spec_scan(cfg, left).len() == spec_scan(cfg, right).len(),
    ensures
        spec_select(cfg, left, right) == Channel::Left,
{
}

} // verus!
