//! Sample-accurate reconstruction of the trimmed output stream.

use vstd::prelude::*;
use crate::config::VadConfig;
use crate::detector::idx_view;

verus! {

/// The concatenation, in list order, of the `frame_size`-sample ranges
/// of the channel starting at each listed index. If frames overlap,
/// the shared samples appear once per containing frame.
pub open spec fn spec_reconstruct(ch: Seq<i32>, indices: Seq<int>, frame_size: int) -> Seq<i32>
    decreases indices.len(),
{
    if indices.len() == 0 {
        Seq::empty()
    } else {
        spec_reconstruct(ch, indices.drop_last(), frame_size) + ch.subrange(
            indices.last(),
            indices.last() + frame_size,
        )
    }
}

/// The output holds exactly `frame_size` samples per listed frame.
pub proof fn lemma_reconstruct_len(ch: Seq<i32>, indices: Seq<int>, frame_size: int)
    requires
        0 <= frame_size,
        forall|a: int|
            0 <= a < indices.len() ==> 0 <= #[trigger] indices[a] && indices[a] + frame_size
                <= ch.len(),
    ensures
        spec_reconstruct(ch, indices, frame_size).len() == indices.len() * frame_size,
    decreases indices.len(),
{
    if indices.len() == 0 {
    } else {
        assert(indices[indices.len() - 1] == indices.last());
        lemma_reconstruct_len(ch, indices.drop_last(), frame_size);
        assert((indices.len() - 1) * frame_size + frame_size == indices.len() * frame_size)
            by (nonlinear_arith);
    }
}

/// Concatenates, in index order, the `frame_size`-sample range of the
/// channel at each voiced-frame index.
pub fn reconstruct(config: &VadConfig, channel: &Vec<i32>, voice_frames: &Vec<usize>) -> (out: Vec<
    i32,
>)
    requires
        config.wf(),
        forall|a: int|
            0 <= a < voice_frames@.len() ==> #[trigger] voice_frames@[a] + config.frame_size
                <= channel@.len(),
    ensures
        out@ == spec_reconstruct(channel@, idx_view(voice_frames@), config.frame_size as int),
{
    let frame_size = config.frame_size;
    let chan_len = channel.len();
    let mut out: Vec<i32> = Vec::new();
    let mut t: usize = 0;
    while t < voice_frames.len()
        invariant
            t <= voice_frames@.len(),
            chan_len == channel@.len(),
            frame_size == config.frame_size,
            config.wf(),
            forall|a: int|
                0 <= a < voice_frames@.len() ==> #[trigger] voice_frames@[a] + config.frame_size
                    <= channel@.len(),
            out@ == spec_reconstruct(
                channel@,
                idx_view(voice_frames@).subrange(0, t as int),
                frame_size as int,
            ),
        decreases voice_frames@.len() - t,
    {
        let start = voice_frames[t];
        proof {
            assert(voice_frames@[t as int] + config.frame_size <= channel@.len());
        }
        let end = start + frame_size;
        let ghost out_before = out@;
        let mut j = start;
        while j < end
            invariant
                start <= j <= end,
                end == start + frame_size,
                end <= channel@.len(),
                out@ == out_before + channel@.subrange(start as int, j as int),
            decreases end - j,
        {
            out.push(channel[j]);
            proof {
                assert(channel@.subrange(start as int, j + 1) =~= channel@.subrange(
                    start as int,
                    j as int,
                ).push(channel@[j as int]));
                assert(out@ =~= out_before + channel@.subrange(start as int, j + 1));
            }
            j = j + 1;
        }
        proof {
            let iv = idx_view(voice_frames@);
            assert(iv.subrange(0, t + 1).drop_last() =~= iv.subrange(0, t as int));
            assert(iv.subrange(0, t + 1).last() == start as int);
        }
        t = t + 1;
    }
    proof {
        assert(idx_view(voice_frames@).subrange(0, voice_frames@.len() as int) =~= idx_view(
            voice_frames@,
        ));
    }
    out
}

} // verus!
