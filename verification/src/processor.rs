//! The whole pipeline: format check, channel split, dual-channel
//! evaluation, and reconstruction.

use vstd::prelude::*;
use crate::config::VadConfig;
use crate::detector::idx_view;
use crate::detector::spec_scan;
use crate::detector::lemma_scan_indices_ordered;
use crate::detector::MAX_SAMPLES;
use crate::evaluator::evaluate_channels;
use crate::evaluator::spec_select;
use crate::evaluator::Channel;
use crate::reconstruct::reconstruct;
use crate::reconstruct::spec_reconstruct;

verus! {

/// The input does not hold exactly two channels.
#[derive(Clone, Copy, Debug, PartialEq, Eq, Structural)]
pub struct UnsupportedFormatError;

/// The left channel of an interleaved stereo stream: the samples at
/// even positions.
pub open spec fn left_of(samples: Seq<i32>) -> Seq<i32> {
    Seq::new((samples.len() / 2) as nat, |k: int| samples[2 * k])
}

/// The right channel of an interleaved stereo stream: the samples at
/// odd positions.
pub open spec fn right_of(samples: Seq<i32>) -> Seq<i32> {
    Seq::new((samples.len() / 2) as nat, |k: int| samples[2 * k + 1])
}

/// The channel the pipeline selects for an interleaved stereo stream.
pub open spec fn spec_selected_channel(cfg: VadConfig, samples: Seq<i32>) -> Channel {
    spec_select(cfg, left_of(samples), right_of(samples))
}

/// The pipeline's output for an interleaved stereo stream: the
/// selected channel's voiced frames, concatenated in index order.
pub open spec fn spec_process(cfg: VadConfig, samples: Seq<i32>) -> Seq<i32> {
    let ch = if spec_selected_channel(cfg, samples) == Channel::Left {
        left_of(samples)
    } else {
        right_of(samples)
    };
    spec_reconstruct(ch, spec_scan(cfg, ch), cfg.frame_size as int)
}

/// Splits an interleaved stereo stream into its two channels.
pub fn split_stereo(samples: &Vec<i32>) -> (r: (Vec<i32>, Vec<i32>))
    requires
        samples@.len() % 2 == 0,
    ensures
        r.0@ == left_of(samples@),
        r.1@ == right_of(samples@),
{
    let len = samples.len();
    let half = len / 2;
    proof {
        vstd::arithmetic::div_mod::lemma_fundamental_div_mod(samples@.len() as int, 2);
    }
    let mut left: Vec<i32> = Vec::with_capacity(half);
    let mut right: Vec<i32> = Vec::with_capacity(half);
    let mut t: usize = 0;
    while t < half
        invariant
            t <= half,
            len == samples@.len(),
            2 * half == len,
            left@.len() == t,
            right@.len() == t,
            forall|a: int| 0 <= a < t ==> #[trigger] left@[a] == samples@[2 * a],
            forall|a: int| 0 <= a < t ==> #[trigger] right@[a] == samples@[2 * a + 1],
        decreases half - t,
    {
        left.push(samples[2 * t]);
        right.push(samples[2 * t + 1]);
        t = t + 1;
    }
    proof {
        assert(left@ =~= left_of(samples@));
        assert(right@ =~= right_of(samples@));
    }
    (left, right)
}

/// The batch processor: a fixed configuration applied to whole
/// decoded sample buffers.
pub struct AudioProcessor {
    config: VadConfig,
}

impl AudioProcessor {
    /// The processor's configuration.
    pub closed spec fn config(self) -> VadConfig {
        self.config
    }

    /// A processor with the given configuration.
    pub fn new(config: VadConfig) -> (p: AudioProcessor)
        ensures
            p.config() == config,
    {
        AudioProcessor { config }
    }

    /// Runs the pipeline on a fully decoded interleaved sample buffer
    /// of `channels` channels: rejects any channel count other than
    /// two, and otherwise returns the selected channel's voiced frames
    /// concatenated in index order.
    pub fn process_samples(&self, channels: u16, samples: &Vec<i32>) -> (r: Result<
        Vec<i32>,
        UnsupportedFormatError,
    >)
        requires
            self.config().wf(),
            channels == 2 ==> samples@.len() % 2 == 0,
            channels == 2 ==> samples@.len() <= 2 * MAX_SAMPLES,
        ensures
            r is Ok <==> channels == 2,
            channels == 2 ==> r->Ok_0@ == spec_process(self.config(), samples@),
    {
        if channels != 2 {
            return Err(UnsupportedFormatError);
        }
        let (left, right) = split_stereo(samples);
        let (selected, voice_frames) = evaluate_channels(&self.config, &left, &right);
        let out = match selected {
            Channel::Left => {
                proof {
                    lemma_scan_indices_ordered(self.config, left@);
                    assert forall|a: int|
                        0 <= a < voice_frames@.len() implies #[trigger] voice_frames@[a]
                        + self.config.frame_size <= left@.len() by {
                        assert(idx_view(voice_frames@)[a] == voice_frames@[a] as int);
                        assert(spec_scan(self.config, left@)[a] + self.config.frame_size
                            <= left@.len());
                    }
                }
                reconstruct(&self.config, &left, &voice_frames)
            },
            Channel::Right => {
                proof {
                    lemma_scan_indices_ordered(self.config, right@);
                    assert forall|a: int|
                        0 <= a < voice_frames@.len() implies #[trigger] voice_frames@[a]
                        + self.config.frame_size <= right@.len() by {
                        assert(idx_view(voice_frames@)[a] == voice_frames@[a] as int);
                        assert(spec_scan(self.config, right@)[a] + self.config.frame_size
                            <= right@.len());
                    }
                }
                reconstruct(&self.config, &right, &voice_frames)
            },
        };
        Ok(out)
    }
}

/// Determinism: the pipeline's result is a function of the
/// configuration and the decoded samples alone — the fork-join of the
/// two channel scans has no say in it — so any two outputs it returns
/// for the same input are equal.
pub proof fn lemma_process_deterministic(
    cfg: VadConfig,
    samples: Seq<i32>,
    out1: Seq<i32>,
    out2: Seq<i32>,
)
    requires
        out1 == spec_process(cfg, samples),
        out2 == spec_process(cfg, samples),
    ensures
        out1 == out2,
{
}

/// The output of a stereo scan holds exactly `frame_size` samples per
/// selected voiced frame.
pub proof fn lemma_process_len(cfg: VadConfig, samples: Seq<i32>)
    requires
        cfg.wf(),
    ensures
        ({
            let ch = if spec_selected_channel(cfg, samples) == Channel::Left {
                left_of(samples)
            } else {
                right_of(samples)
            };
            spec_process(cfg, samples).len() == spec_scan(cfg, ch).len() * cfg.frame_size
        }),
{
    let ch = if spec_selected_channel(cfg, samples) == Channel::Left {
        left_of(samples)
    } else {
        right_of(samples)
    };
    lemma_scan_indices_ordered(cfg, ch);
    crate::reconstruct::lemma_reconstruct_len(ch, spec_scan(cfg, ch), cfg.frame_size as int);
}

} // verus!
