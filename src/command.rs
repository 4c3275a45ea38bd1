use vstd::prelude::*;

use crate::decimal::{decimal_text, mul_micros, Decimal};
use crate::filters::{speed_changed, AudioTopology, FilterPlan};
use crate::probe::ProbeResult;
use crate::settings::{opt_view, tokens, Settings};
use crate::text::{is_set, push_chars, push_str, setting_present, string_of};
use crate::timing::ResolvedTiming;

verus! {

pub open spec fn seek_args(s: Settings, t: ResolvedTiming, p: ProbeResult) -> Seq<Seq<char>> {
    let start: Seq<Seq<char>> = if t.clip_start.micros > 0 {
        seq!["-ss"@, decimal_text(t.clip_start.micros as int)]
    } else {
        Seq::empty()
    };
    let end: Seq<Seq<char>> = if t.clip_end.micros < p.duration.micros {
        seq!["-to"@, decimal_text(t.clip_end.micros as int)]
    } else {
        Seq::empty()
    };
    start + end
}

pub open spec fn background_input_args(s: Settings) -> Seq<Seq<char>> {
    if is_set(opt_view(s.background_audio_path)) {
        seq![
            "-ss"@,
            decimal_text(s.audio_start_time.micros as int),
            "-i"@,
            s.background_audio_path->0@,
        ]
    } else {
        Seq::empty()
    }
}

pub open spec fn video_codec(s: Settings) -> Seq<char> {
    if s.use_gpu {
        "hevc_nvenc"@
    } else {
        "libx265"@
    }
}

/// Constant rate factor where one is set and the GPU is not used; the bitrate otherwise.
pub open spec fn rate_args(s: Settings) -> Seq<Seq<char>> {
    if is_set(opt_view(s.crf)) && !s.use_gpu {
        seq!["-crf"@, s.crf->0@]
    } else {
        seq!["-b:v"@, s.video_bitrate@]
    }
}

pub open spec fn video_args(s: Settings, p: ProbeResult, plan_video: Seq<char>) -> Seq<Seq<char>> {
    if plan_video.len() == 0 {
        seq!["-c:v"@, "copy"@]
    } else {
        let rate: Seq<Seq<char>> = if speed_changed(s) {
            seq![
                "-r"@,
                decimal_text(mul_micros(p.framerate.micros as int, s.video_speed.micros as int)),
            ]
        } else {
            Seq::empty()
        };
        seq!["-filter_complex"@, "[0:v]"@ + plan_video + "[v]"@, "-map"@, "[v]"@] + rate + seq![
            "-c:v"@,
            video_codec(s),
        ] + rate_args(s)
    }
}

/// The audio filter graph of each topology, ending in the stream labelled `a`.
pub open spec fn audio_graph(s: Settings, topology: AudioTopology, chain: Seq<char>) -> Seq<char> {
    match topology {
        AudioTopology::Direct => "[0:a]volume="@ + decimal_text(
            s.original_audio_volume.micros as int,
        ) + ","@ + chain + "[a]"@,
        AudioTopology::ReplaceWithBackground => "[1:a]volume="@ + decimal_text(
            s.background_audio_volume.micros as int,
        ) + ","@ + chain + "[a]"@,
        AudioTopology::MixWithBackground => "[0:a]volume="@ + decimal_text(
            s.original_audio_volume.micros as int,
        ) + "[a0];[1:a]volume="@ + decimal_text(s.background_audio_volume.micros as int) + ","@
            + chain + "[a1];[a0][a1]amix=inputs=2:duration=first:dropout_transition=3[a]"@,
    }
}

pub open spec fn output_args(s: Settings) -> Seq<Seq<char>> {
    seq!["-c:a"@, "aac"@, "-b:a"@, "192k"@, "-y"@, s.output_video_path@]
}

/// The whole transcode command, in the order the tool resolves it.
pub open spec fn command_of(
    s: Settings,
    t: ResolvedTiming,
    plan: Seq<char>,
    audio: Seq<char>,
    topology: AudioTopology,
    p: ProbeResult,
) -> Seq<Seq<char>> {
    seq![s.ffmpeg_path@, "-i"@, s.input_video_path@] + seek_args(s, t, p) + background_input_args(s)
        + video_args(s, p, plan) + seq![
        "-filter_complex"@,
        audio_graph(s, topology, audio),
        "-map"@,
        "[a]"@,
    ] + output_args(s)
}

fn push_token(out: &mut Vec<String>, t: String)
    ensures
        tokens(final(out)@) == tokens(old(out)@).push(t@),
{
    out.push(t);
    assert(tokens(final(out)@) =~= tokens(old(out)@).push(t@));
}

fn push_lit(out: &mut Vec<String>, t: &str)
    ensures
        tokens(final(out)@) == tokens(old(out)@).push(t@),
{
    push_token(out, String::from_str(t));
}

fn push_decimal(out: &mut Vec<String>, d: &Decimal)
    requires
        d.micros <= 1_000_000_000_000_000_000_000_000_000_000,
        d.micros >= -1_000_000_000_000_000_000_000_000_000_000,
    ensures
        tokens(final(out)@) == tokens(old(out)@).push(decimal_text(d.micros as int)),
{
    push_token(out, d.text());
}

fn audio_graph_text(s: &Settings, topology: AudioTopology, chain: &String) -> (r: String)
    requires
        s.wf(),
    ensures
        r@ == audio_graph(*s, topology, chain@),
{
    let mut g: Vec<char> = Vec::new();
    match topology {
        AudioTopology::Direct => {
            push_str(&mut g, "[0:a]volume=");
            push_chars(&mut g, &s.original_audio_volume.text_chars());
            push_str(&mut g, ",");
            push_str(&mut g, chain.as_str());
            push_str(&mut g, "[a]");
        },
        AudioTopology::ReplaceWithBackground => {
            push_str(&mut g, "[1:a]volume=");
            push_chars(&mut g, &s.background_audio_volume.text_chars());
            push_str(&mut g, ",");
            push_str(&mut g, chain.as_str());
            push_str(&mut g, "[a]");
        },
        AudioTopology::MixWithBackground => {
            push_str(&mut g, "[0:a]volume=");
            push_chars(&mut g, &s.original_audio_volume.text_chars());
            push_str(&mut g, "[a0];[1:a]volume=");
            push_chars(&mut g, &s.background_audio_volume.text_chars());
            push_str(&mut g, ",");
            push_str(&mut g, chain.as_str());
            push_str(&mut g, "[a1];[a0][a1]amix=inputs=2:duration=first:dropout_transition=3[a]");
        },
    }
    assert(g@ =~= audio_graph(*s, topology, chain@));
    string_of(&g)
}

fn push_seek_args(out: &mut Vec<String>, s: &Settings, t: &ResolvedTiming, p: &ProbeResult)
    requires
        t.wf(),
        p.wf(),
    ensures
        tokens(final(out)@) == tokens(old(out)@) + seek_args(*s, *t, *p),
{
    let ghost c0 = tokens(out@);
    if t.clip_start.micros > 0 {
        push_lit(out, "-ss");
        push_decimal(out, &t.clip_start);
    }
    let ghost c1 = tokens(out@);
    if t.clip_end.micros < p.duration.micros {
        push_lit(out, "-to");
        push_decimal(out, &t.clip_end);
    }
    assert(tokens(out@) =~= c0 + seek_args(*s, *t, *p));
}

fn push_background_input(out: &mut Vec<String>, s: &Settings)
    requires
        s.wf(),
    ensures
        tokens(final(out)@) == tokens(old(out)@) + background_input_args(*s),
{
    if setting_present(&s.background_audio_path) {
        push_lit(out, "-ss");
        push_decimal(out, &s.audio_start_time);
        push_lit(out, "-i");
        match &s.background_audio_path {
            Some(path) => push_token(out, path.clone()),
            None => {},
        }
    }
    assert(tokens(out@) =~= tokens(old(out)@) + background_input_args(*s));
}

fn push_rate(out: &mut Vec<String>, s: &Settings)
    ensures
        tokens(final(out)@) == tokens(old(out)@) + rate_args(*s),
{
    if setting_present(&s.crf) && !s.use_gpu {
        push_lit(out, "-crf");
        match &s.crf {
            Some(c) => push_token(out, c.clone()),
            None => {},
        }
    } else {
        push_lit(out, "-b:v");
        push_token(out, s.video_bitrate.clone());
    }
    assert(tokens(out@) =~= tokens(old(out)@) + rate_args(*s));
}

fn push_video(out: &mut Vec<String>, s: &Settings, plan: &FilterPlan, p: &ProbeResult)
    requires
        s.wf(),
        p.wf(),
    ensures
        tokens(final(out)@) == tokens(old(out)@) + video_args(*s, *p, plan.video@),
{
    if plan.video.as_str().is_empty() {
        push_lit(out, "-c:v");
        push_lit(out, "copy");
        assert(tokens(out@) =~= tokens(old(out)@) + video_args(*s, *p, plan.video@));
        return;
    }
    push_lit(out, "-filter_complex");
    let mut vg: Vec<char> = Vec::new();
    push_str(&mut vg, "[0:v]");
    push_str(&mut vg, plan.video.as_str());
    push_str(&mut vg, "[v]");
    assert(vg@ =~= "[0:v]"@ + plan.video@ + "[v]"@);
    push_token(out, string_of(&vg));
    push_lit(out, "-map");
    push_lit(out, "[v]");
    let ghost c0 = tokens(out@);
    if s.video_speed.micros != 1_000_000 {
        push_lit(out, "-r");
        push_decimal(out, &p.framerate.mul(&s.video_speed));
    }
    let ghost c1 = tokens(out@);
    push_lit(out, "-c:v");
    if s.use_gpu {
        push_lit(out, "hevc_nvenc");
    } else {
        push_lit(out, "libx265");
    }
    let ghost c2 = tokens(out@);
    push_rate(out, s);
    assert(c2 =~= c1 + seq!["-c:v"@, video_codec(*s)]);
    assert(tokens(out@) =~= tokens(old(out)@) + video_args(*s, *p, plan.video@));
}

fn push_audio_and_output(out: &mut Vec<String>, s: &Settings, plan: &FilterPlan)
    requires
        s.wf(),
    ensures
        tokens(final(out)@) == tokens(old(out)@) + seq![
            "-filter_complex"@,
            audio_graph(*s, plan.topology, plan.audio@),
            "-map"@,
            "[a]"@,
        ] + output_args(*s),
{
    push_lit(out, "-filter_complex");
    push_token(out, audio_graph_text(s, plan.topology, &plan.audio));
    push_lit(out, "-map");
    push_lit(out, "[a]");
    push_lit(out, "-c:a");
    push_lit(out, "aac");
    push_lit(out, "-b:a");
    push_lit(out, "192k");
    push_lit(out, "-y");
    push_token(out, s.output_video_path.clone());
    assert(tokens(out@) =~= tokens(old(out)@) + seq![
        "-filter_complex"@,
        audio_graph(*s, plan.topology, plan.audio@),
        "-map"@,
        "[a]"@,
    ] + output_args(*s));
}

/// Assembles the transcode command from the settings, timing, filter plan and probe.
pub fn assemble_command(s: &Settings, t: &ResolvedTiming, plan: &FilterPlan, p: &ProbeResult) -> (r:
    Vec<String>)
    requires
        s.wf(),
        t.wf(),
        p.wf(),
    ensures
        tokens(r@) == command_of(*s, *t, plan.video@, plan.audio@, plan.topology, *p),
{
    let mut out: Vec<String> = Vec::new();
    push_token(&mut out, s.ffmpeg_path.clone());
    push_lit(&mut out, "-i");
    push_token(&mut out, s.input_video_path.clone());
    assert(tokens(out@) =~= seq![s.ffmpeg_path@, "-i"@, s.input_video_path@]);
    push_seek_args(&mut out, s, t, p);
    push_background_input(&mut out, s);
    push_video(&mut out, s, plan, p);
    push_audio_and_output(&mut out, s, plan);
    out
}

} // verus!
