use vstd::prelude::*;

use crate::command::{audio_graph, background_input_args, rate_args, video_args, video_codec};
use crate::decimal::{abs, decimal_text, frac_text, mul_micros, nat_text, padded, recip_micros};
use crate::filters::{
    audio_chain, fade_pair, pts_factor_text, scale_part, topology_of, video_chain, AudioTopology,
};
use crate::probe::ProbeResult;
use crate::settings::{opt_view, Settings};
use crate::supervisor::{exit_outcome, failure_message};
use crate::text::is_set;
use crate::timing::ResolvedTiming;

verus! {

/// Validation fails exactly when one of the input path, output path, tool path
/// or bitrate is empty.
pub proof fn validation_fails_on_empty_required(s: Settings)
    ensures
        s.missing_key() is Some <==> s.input_video_path@.len() == 0 || s.output_video_path@.len()
            == 0 || s.ffmpeg_path@.len() == 0 || s.video_bitrate@.len() == 0,
{
}

/// At double speed the timestamps are scaled by one half, the output frame rate
/// is twice the probed one, and the audio tempo is doubled.
pub proof fn double_speed_scales_time(s: Settings, t: ResolvedTiming, p: ProbeResult)
    requires
        s.video_speed.micros == 2_000_000,
    ensures
        video_chain(s, t) == fade_pair("fade"@, t) + scale_part(s) + ",setpts=0.5*PTS"@,
        audio_chain(s, t) == fade_pair("afade"@, t) + ",atempo=2"@,
        video_args(s, p, video_chain(s, t)).subrange(4, 6) == seq![
            "-r"@,
            decimal_text(mul_micros(p.framerate.micros as int, 2_000_000)),
        ],
{
    reveal_with_fuel(frac_text, 7);
    reveal_with_fuel(padded, 2);
    assert(abs(2_000_000) == 2_000_000);
    assert(1_000_001_000_000int / 2_000_000int == 500_000) by (nonlinear_arith);
    assert(recip_micros(2_000_000) == 500_000);
    assert(nat_text(0) =~= seq!['0']);
    assert(frac_text(500_000, 6) =~= seq!['5']);
    reveal_strlit("0.5");
    reveal_strlit("2");
    reveal_strlit(",setpts=");
    reveal_strlit("*PTS");
    reveal_strlit(",setpts=0.5*PTS");
    reveal_strlit(",atempo=");
    reveal_strlit(",atempo=2");
    assert(decimal_text(500_000) =~= "0.5"@);
    assert(pts_factor_text(2_000_000) =~= "0.5"@);
    assert(nat_text(2) =~= seq!['2']);
    assert(decimal_text(2_000_000) =~= "2"@);
    assert(",setpts="@ + "0.5"@ + "*PTS"@ =~= ",setpts=0.5*PTS"@);
    assert(",atempo="@ + "2"@ =~= ",atempo=2"@);
    let v = video_chain(s, t);
    assert(video_args(s, p, v).subrange(4, 6) =~= seq![
        "-r"@,
        decimal_text(mul_micros(p.framerate.micros as int, 2_000_000)),
    ]);
}

/// At unit speed neither chain rescales time, and the output frame rate is not set.
pub proof fn unit_speed_keeps_time(s: Settings, t: ResolvedTiming, p: ProbeResult, plan: Seq<char>)
    requires
        s.video_speed.micros == 1_000_000,
        plan.len() > 0,
    ensures
        video_chain(s, t) == fade_pair("fade"@, t) + scale_part(s),
        audio_chain(s, t) == fade_pair("afade"@, t),
        video_args(s, p, plan) == seq![
            "-filter_complex"@,
            "[0:v]"@ + plan + "[v]"@,
            "-map"@,
            "[v]"@,
            "-c:v"@,
            video_codec(s),
        ] + rate_args(s),
{
    assert(video_chain(s, t) =~= fade_pair("fade"@, t) + scale_part(s));
    assert(video_args(s, p, plan) =~= seq![
        "-filter_complex"@,
        "[0:v]"@ + plan + "[v]"@,
        "-map"@,
        "[v]"@,
        "-c:v"@,
        video_codec(s),
    ] + rate_args(s));
}

/// A constant rate factor is used where one is set and the GPU is not; with the
/// GPU the bitrate is used instead and the rate factor is dropped.
pub proof fn crf_only_without_gpu(s: Settings)
    requires
        is_set(opt_view(s.crf)),
    ensures
        !s.use_gpu ==> rate_args(s) == seq!["-crf"@, s.crf->0@],
        s.use_gpu ==> rate_args(s) == seq!["-b:v"@, s.video_bitrate@],
{
}

/// Without background audio, the output audio is the primary stream's, with its
/// volume and the fade chain.
pub proof fn direct_audio_without_background(s: Settings, chain: Seq<char>)
    requires
        !is_set(opt_view(s.background_audio_path)),
    ensures
        topology_of(s) == AudioTopology::Direct,
        background_input_args(s) == Seq::<Seq<char>>::empty(),
        audio_graph(s, topology_of(s), chain) == "[0:a]volume="@ + decimal_text(
            s.original_audio_volume.micros as int,
        ) + ","@ + chain + "[a]"@,
{
}

/// With background audio that replaces the input's own, the output audio is the
/// background stream alone, with its volume and the fade chain.
pub proof fn background_replaces_audio(s: Settings, chain: Seq<char>)
    requires
        is_set(opt_view(s.background_audio_path)),
        s.replace_audio,
    ensures
        topology_of(s) == AudioTopology::ReplaceWithBackground,
        background_input_args(s) == seq![
            "-ss"@,
            decimal_text(s.audio_start_time.micros as int),
            "-i"@,
            s.background_audio_path->0@,
        ],
        audio_graph(s, topology_of(s), chain) == "[1:a]volume="@ + decimal_text(
            s.background_audio_volume.micros as int,
        ) + ","@ + chain + "[a]"@,
{
}

/// With background audio that does not replace the input's own, both streams are
/// mixed as two inputs, the first one's length governing, with a three-second
/// dropout transition.
pub proof fn background_mixes_audio(s: Settings, chain: Seq<char>)
    requires
        is_set(opt_view(s.background_audio_path)),
        !s.replace_audio,
    ensures
        topology_of(s) == AudioTopology::MixWithBackground,
        background_input_args(s) == seq![
            "-ss"@,
            decimal_text(s.audio_start_time.micros as int),
            "-i"@,
            s.background_audio_path->0@,
        ],
        audio_graph(s, topology_of(s), chain) == "[0:a]volume="@ + decimal_text(
            s.original_audio_volume.micros as int,
        ) + "[a0];[1:a]volume="@ + decimal_text(s.background_audio_volume.micros as int) + ","@
            + chain + "[a1];[a0][a1]amix=inputs=2:duration=first:dropout_transition=3[a]"@,
{
}

/// A non-zero exit is a failure that carries the status, whichever the mode.
pub proof fn failed_exit_reports_status(status: Seq<char>)
    ensures
        exit_outcome(false, status) == Err::<(), Seq<char>>(failure_message(status)),
        exit_outcome(true, status) == Ok::<(), Seq<char>>(()),
{
}

} // verus!
