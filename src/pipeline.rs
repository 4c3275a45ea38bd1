use vstd::prelude::*;

use crate::command::{assemble_command, command_of};
use crate::decimal::Decimal;
use crate::filters::{audio_chain, build_filters, topology_of, video_chain};
use crate::probe::{line_seqs, probe_from_lines, probe_of, ProbeError, ProbeResult};
use crate::settings::{missing_message, opt_view, tokens, Config, Settings};
use crate::supervisor::{execution_mode, mode_of, ExecutionMode};
use crate::timing::{bound_of, fade_or_default, resolve_timing, ResolvedTiming, TimingError};

verus! {

#[derive(Debug, PartialEq, Eq)]
pub enum PipelineError {
    ConfigValidation(String),
    Probe(ProbeError),
    InvalidTiming(TimingError),
}

/// The transcode to run: its command, the probed duration that bounds its
/// progress, and how its output is handled.
pub struct RunPlan {
    pub command: Vec<String>,
    pub duration: Decimal,
    pub mode: ExecutionMode,
}

pub open spec fn dec(m: int) -> Decimal {
    Decimal { micros: m as i128 }
}

/// The probe result that the probe's lines give, where they give one.
pub open spec fn probe_result_of(ls: Seq<Seq<char>>) -> ProbeResult {
    ProbeResult { duration: dec(probe_of(ls)->Ok_0.0), framerate: dec(probe_of(ls)->Ok_0.1) }
}

/// The timing that `s` resolves to on an input of `duration` millionths, where it resolves.
pub open spec fn timing_of(s: Settings, duration: int) -> ResolvedTiming {
    let end = bound_of(opt_view(s.clip_end_time), duration)->0;
    let fade_out = fade_or_default(s.fade_out_duration);
    ResolvedTiming {
        clip_start: dec(bound_of(opt_view(s.clip_start_time), 0)->0),
        clip_end: dec(end),
        fade_in: dec(fade_or_default(s.fade_in_duration)),
        fade_out: dec(fade_out),
        fade_out_start: dec(end - fade_out),
    }
}

/// The transcode command for settings `s` and probe lines `ls`, where each stage succeeds.
pub open spec fn run_command_of(s: Settings, ls: Seq<Seq<char>>) -> Seq<Seq<char>> {
    let p = probe_result_of(ls);
    let t = timing_of(s, p.duration.micros as int);
    command_of(s, t, video_chain(s, t), audio_chain(s, t), topology_of(s), p)
}

impl PipelineError {
    pub fn message(&self) -> (r: String)
        ensures
            self is ConfigValidation ==> r@ == self->ConfigValidation_0@,
            self matches PipelineError::Probe(ProbeError::LaunchFailed(m)) ==> r@ == m@,
            *self == PipelineError::Probe(ProbeError::DurationNotFound) ==> r@
                == "Could not determine video duration"@,
            *self == PipelineError::Probe(ProbeError::FrameRateNotFound) ==> r@
                == "Could not determine video framerate"@,
            *self == PipelineError::InvalidTiming(TimingError::InvalidClipStart) ==> r@
                == "Invalid clip_start_time"@,
            *self == PipelineError::InvalidTiming(TimingError::InvalidClipEnd) ==> r@
                == "Invalid clip_end_time"@,
    {
        match self {
            PipelineError::ConfigValidation(m) => m.clone(),
            PipelineError::Probe(ProbeError::LaunchFailed(m)) => m.clone(),
            PipelineError::Probe(ProbeError::DurationNotFound) => String::from_str(
                "Could not determine video duration",
            ),
            PipelineError::Probe(ProbeError::FrameRateNotFound) => String::from_str(
                "Could not determine video framerate",
            ),
            PipelineError::InvalidTiming(TimingError::InvalidClipStart) => String::from_str(
                "Invalid clip_start_time",
            ),
            PipelineError::InvalidTiming(TimingError::InvalidClipEnd) => String::from_str(
                "Invalid clip_end_time",
            ),
        }
    }
}

/// From validated settings and the probe run's diagnostic lines to the transcode
/// to run: probe scan, timing, filter chains, command.
pub fn plan_run(config: &Config, probe_lines: &Vec<String>) -> (r: Result<RunPlan, PipelineError>)
    requires
        config.settings.wf(),
    ensures
        ({
            let s = config.settings;
            let ls = line_seqs(probe_lines@);
            let d = probe_of(ls)->Ok_0.0;
            &&& (r matches Err(PipelineError::ConfigValidation(m)) <==> s.missing_key() is Some)
            &&& (r matches Err(PipelineError::ConfigValidation(m)) ==> m@ == missing_message(
                s.missing_key()->0,
            ))
            &&& (r matches Err(PipelineError::Probe(e)) <==> s.missing_key() is None && probe_of(
                ls,
            ) is Err)
            &&& (r matches Err(PipelineError::Probe(e)) ==> e == probe_of(ls)->Err_0)
            &&& (r == Err::<RunPlan, PipelineError>(
                PipelineError::InvalidTiming(TimingError::InvalidClipStart),
            ) <==> s.missing_key() is None && probe_of(ls) is Ok && bound_of(
                opt_view(s.clip_start_time),
                0,
            ) is None)
            &&& (r == Err::<RunPlan, PipelineError>(
                PipelineError::InvalidTiming(TimingError::InvalidClipEnd),
            ) <==> s.missing_key() is None && probe_of(ls) is Ok && bound_of(
                opt_view(s.clip_start_time),
                0,
            ) is Some && bound_of(opt_view(s.clip_end_time), d) is None)
            &&& (r is Ok ==> tokens(r->Ok_0.command@) == run_command_of(s, ls)
                && r->Ok_0.duration.micros == d && r->Ok_0.mode == mode_of(s.advanced_log))
        }),
{
    if let Err(m) = config.validate() {
        return Err(PipelineError::ConfigValidation(m));
    }
    let s = &config.settings;
    let probe = match probe_from_lines(probe_lines) {
        Ok(p) => p,
        Err(e) => {
            return Err(PipelineError::Probe(e));
        },
    };
    let timing = match resolve_timing(&probe.duration, s) {
        Ok(t) => t,
        Err(e) => {
            return Err(PipelineError::InvalidTiming(e));
        },
    };
    let ghost ls = line_seqs(probe_lines@);
    assert(probe == probe_result_of(ls));
    assert(timing == timing_of(*s, probe.duration.micros as int));
    let plan = build_filters(s, &timing);
    let command = assemble_command(s, &timing, &plan, &probe);
    let mode = execution_mode(s.advanced_log);
    Ok(RunPlan { command, duration: probe.duration, mode })
}

} // verus!
