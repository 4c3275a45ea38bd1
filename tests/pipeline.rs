use vidfade::decimal::{parse_decimal_str, Decimal};
use vidfade::filters::{build_filters, AudioTopology};
use vidfade::pipeline::{plan_run, PipelineError};
use vidfade::probe::{probe_from_lines, ProbeError, ProbeResult};
use vidfade::settings::{Config, Settings};
use vidfade::supervisor::{
    execution_mode, parse_ffmpeg_progress, progress_from_fields, ExecutionMode, RunState,
    Supervisor,
};
use vidfade::timing::{resolve_timing, ResolvedTiming, TimingError};

fn units(n: i32) -> Decimal {
    Decimal::from_units(n)
}

fn dec(s: &str) -> Decimal {
    parse_decimal_str(s).unwrap()
}

fn base_settings() -> Settings {
    Settings {
        input_video_path: "in.mp4".to_string(),
        output_video_path: "out.mp4".to_string(),
        ffmpeg_path: "ffmpeg".to_string(),
        use_gpu: false,
        video_bitrate: "5M".to_string(),
        crf: None,
        upscale_resolution: None,
        background_audio_path: None,
        audio_start_time: units(0),
        replace_audio: false,
        original_audio_volume: units(1),
        background_audio_volume: dec("0.5"),
        clip_start_time: None,
        clip_end_time: None,
        video_speed: units(1),
        advanced_log: false,
        fade_in_duration: None,
        fade_out_duration: None,
    }
}

fn probe_lines() -> Vec<String> {
    vec![
        "Input #0, mov,mp4,m4a,3gp,3g2,mj2, from 'in.mp4':".to_string(),
        "  Duration: 00:01:30.50, start: 0.000000, bitrate: 1205 kb/s".to_string(),
        "    Stream #0:0(und): Video: h264 (High), yuv420p, 1920x1080, 1200 kb/s, 25 fps, 25 tbr"
            .to_string(),
        "    Stream #0:1(und): Audio: aac (LC), 48000 Hz, stereo, fltp, 128 kb/s".to_string(),
    ]
}

fn probe() -> ProbeResult {
    probe_from_lines(&probe_lines()).unwrap()
}

fn timing(s: &Settings) -> ResolvedTiming {
    resolve_timing(&probe().duration, s).unwrap()
}

fn command(s: Settings) -> Vec<String> {
    plan_run(&Config { settings: s }, &probe_lines()).unwrap().command
}

fn has_pair(cmd: &[String], a: &str, b: &str) -> bool {
    cmd.windows(2).any(|w| w[0] == a && w[1] == b)
}

#[test]
fn validation_rejects_each_empty_required_field() {
    let cases: Vec<(fn(&mut Settings), &str)> = vec![
        (|s| s.input_video_path.clear(), "input_video_path"),
        (|s| s.output_video_path.clear(), "output_video_path"),
        (|s| s.ffmpeg_path.clear(), "ffmpeg_path"),
        (|s| s.video_bitrate.clear(), "video_bitrate"),
    ];
    for (blank, key) in cases {
        let mut s = base_settings();
        blank(&mut s);
        let c = Config { settings: s };
        let expected = format!("Missing required config key: {}", key);
        assert_eq!(c.validate(), Err(expected.clone()));
        assert_eq!(c.probe_command(), Err(expected.clone()));
        match plan_run(&c, &probe_lines()) {
            Err(PipelineError::ConfigValidation(m)) => assert_eq!(m, expected),
            _ => panic!("validation should fail"),
        }
    }
}

#[test]
fn probe_command_after_validation() {
    let c = Config { settings: base_settings() };
    assert_eq!(c.validate(), Ok(()));
    assert_eq!(
        c.probe_command().unwrap(),
        vec!["ffmpeg", "-i", "in.mp4", "-hide_banner"]
    );
}

#[test]
fn probe_reads_duration_and_framerate() {
    let p = probe();
    assert_eq!(p.duration.micros, 90_500_000);
    assert_eq!(p.framerate.micros, 25_000_000);
    assert_eq!(p.duration.text(), "90.5");
    assert_eq!(p.framerate.text(), "25");
}

#[test]
fn probe_reports_missing_facts() {
    let no_duration = vec!["    Stream #0:0: Video: h264, 25 fps".to_string()];
    assert_eq!(probe_from_lines(&no_duration).err(), Some(ProbeError::DurationNotFound));
    let no_video = vec!["  Duration: 00:00:10.00, start: 0.0".to_string()];
    assert_eq!(probe_from_lines(&no_video).err(), Some(ProbeError::FrameRateNotFound));
    let bad_duration = vec![
        "  Duration: N/A, bitrate: N/A".to_string(),
        "  Duration: 00:00:10.00, start: 0.0".to_string(),
        "    Stream #0:0: Video: h264, 25 fps".to_string(),
    ];
    assert_eq!(probe_from_lines(&bad_duration).err(), Some(ProbeError::DurationNotFound));
    assert_eq!(probe_from_lines(&Vec::new()).err(), Some(ProbeError::DurationNotFound));
}

#[test]
fn probe_reads_fractional_framerate() {
    let lines = vec![
        "  Duration: 01:00:00.00, start: 0.0".to_string(),
        "    Stream #0:0: Video: h264, 1280x720, 29.97 fps, 29.97 tbr".to_string(),
    ];
    let p = probe_from_lines(&lines).unwrap();
    assert_eq!(p.duration.micros, 3_600_000_000);
    assert_eq!(p.framerate.micros, 29_970_000);
}

#[test]
fn clip_none_and_absent_resolve_to_full_length() {
    let mut s = base_settings();
    s.clip_start_time = Some("none".to_string());
    s.clip_end_time = None;
    let t = timing(&s);
    assert_eq!(t.clip_start.micros, 0);
    assert_eq!(t.clip_end.micros, 90_500_000);
    s.clip_start_time = Some("NoNe".to_string());
    s.clip_end_time = Some("NONE".to_string());
    let t = timing(&s);
    assert_eq!(t.clip_start.micros, 0);
    assert_eq!(t.clip_end.micros, 90_500_000);
}

#[test]
fn fade_out_starts_before_clip_end() {
    let mut s = base_settings();
    s.clip_start_time = Some("10".to_string());
    s.clip_end_time = Some("80".to_string());
    let t = timing(&s);
    assert_eq!(t.fade_in.micros, 3_000_000);
    assert_eq!(t.fade_out.micros, 3_000_000);
    assert_eq!(t.fade_out_start.micros, 77_000_000);
    assert_eq!(t.fade_out_start.text(), "77");
}

#[test]
fn fade_out_start_may_be_negative() {
    let mut s = base_settings();
    s.clip_end_time = Some("2".to_string());
    s.fade_out_duration = Some(units(5));
    let t = timing(&s);
    assert_eq!(t.fade_out_start.text(), "-3");
}

#[test]
fn non_numeric_clip_bounds_are_rejected() {
    let d = probe().duration;
    let mut s = base_settings();
    s.clip_start_time = Some("ten".to_string());
    assert_eq!(resolve_timing(&d, &s).err(), Some(TimingError::InvalidClipStart));
    s.clip_start_time = Some("1".to_string());
    s.clip_end_time = Some("8o".to_string());
    assert_eq!(resolve_timing(&d, &s).err(), Some(TimingError::InvalidClipEnd));
    match plan_run(&Config { settings: s }, &probe_lines()) {
        Err(e) => assert_eq!(e.message(), "Invalid clip_end_time"),
        Ok(_) => panic!("timing should fail"),
    }
}

#[test]
fn double_speed_rescales_video_and_audio() {
    let mut s = base_settings();
    s.video_speed = units(2);
    let plan = build_filters(&s, &timing(&s));
    assert_eq!(
        plan.video,
        "fade=t=in:st=0:d=3,fade=t=out:st=87.5:d=3,setpts=0.5*PTS"
    );
    assert_eq!(
        plan.audio,
        "afade=t=in:st=0:d=3,afade=t=out:st=87.5:d=3,atempo=2"
    );
    let cmd = command(s);
    assert!(has_pair(&cmd, "-r", "50"));
}

#[test]
fn unit_speed_adds_no_rescale() {
    let s = base_settings();
    let plan = build_filters(&s, &timing(&s));
    assert_eq!(plan.video, "fade=t=in:st=0:d=3,fade=t=out:st=87.5:d=3");
    assert_eq!(plan.audio, "afade=t=in:st=0:d=3,afade=t=out:st=87.5:d=3");
    assert!(!command(s).iter().any(|a| a == "-r"));
}

#[test]
fn upscale_and_odd_speed_factor() {
    let mut s = base_settings();
    s.upscale_resolution = Some("3840x2160".to_string());
    s.video_speed = units(3);
    let plan = build_filters(&s, &timing(&s));
    assert_eq!(
        plan.video,
        "fade=t=in:st=0:d=3,fade=t=out:st=87.5:d=3,scale=3840x2160,setpts=0.333333*PTS"
    );
    s.upscale_resolution = Some("None".to_string());
    s.video_speed = dec("0.5");
    let plan = build_filters(&s, &timing(&s));
    assert_eq!(plan.video, "fade=t=in:st=0:d=3,fade=t=out:st=87.5:d=3,setpts=2*PTS");
    assert_eq!(plan.audio, "afade=t=in:st=0:d=3,afade=t=out:st=87.5:d=3,atempo=0.5");
}

#[test]
fn crf_used_only_without_gpu() {
    let mut s = base_settings();
    s.crf = Some("28".to_string());
    let cmd = command(s);
    assert!(has_pair(&cmd, "-c:v", "libx265"));
    assert!(has_pair(&cmd, "-crf", "28"));
    assert!(!cmd.iter().any(|a| a == "-b:v"));

    let mut s = base_settings();
    s.crf = Some("28".to_string());
    s.use_gpu = true;
    let cmd = command(s);
    assert!(has_pair(&cmd, "-c:v", "hevc_nvenc"));
    assert!(has_pair(&cmd, "-b:v", "5M"));
    assert!(!cmd.iter().any(|a| a == "-crf"));

    let mut s = base_settings();
    s.crf = Some("none".to_string());
    assert!(has_pair(&command(s), "-b:v", "5M"));
}

#[test]
fn direct_audio_without_background() {
    let s = base_settings();
    assert_eq!(build_filters(&s, &timing(&s)).topology, AudioTopology::Direct);
    let cmd = command(s);
    assert_eq!(
        cmd,
        vec![
            "ffmpeg",
            "-i",
            "in.mp4",
            "-filter_complex",
            "[0:v]fade=t=in:st=0:d=3,fade=t=out:st=87.5:d=3[v]",
            "-map",
            "[v]",
            "-c:v",
            "libx265",
            "-b:v",
            "5M",
            "-filter_complex",
            "[0:a]volume=1,afade=t=in:st=0:d=3,afade=t=out:st=87.5:d=3[a]",
            "-map",
            "[a]",
            "-c:a",
            "aac",
            "-b:a",
            "192k",
            "-y",
            "out.mp4",
        ]
    );
}

#[test]
fn background_none_word_means_direct() {
    let mut s = base_settings();
    s.background_audio_path = Some("none".to_string());
    assert_eq!(build_filters(&s, &timing(&s)).topology, AudioTopology::Direct);
    assert!(!command(s).iter().any(|a| a == "-ss"));
}

#[test]
fn background_replaces_original_audio() {
    let mut s = base_settings();
    s.background_audio_path = Some("music.mp3".to_string());
    s.replace_audio = true;
    s.audio_start_time = dec("12.5");
    assert_eq!(
        build_filters(&s, &timing(&s)).topology,
        AudioTopology::ReplaceWithBackground
    );
    let cmd = command(s);
    assert_eq!(&cmd[3..7], &["-ss", "12.5", "-i", "music.mp3"]);
    assert!(has_pair(
        &cmd,
        "-filter_complex",
        "[1:a]volume=0.5,afade=t=in:st=0:d=3,afade=t=out:st=87.5:d=3[a]"
    ));
}

#[test]
fn background_mixes_with_original_audio() {
    let mut s = base_settings();
    s.background_audio_path = Some("music.mp3".to_string());
    s.original_audio_volume = dec("0.8");
    assert_eq!(
        build_filters(&s, &timing(&s)).topology,
        AudioTopology::MixWithBackground
    );
    let cmd = command(s);
    assert!(has_pair(
        &cmd,
        "-filter_complex",
        "[0:a]volume=0.8[a0];[1:a]volume=0.5,afade=t=in:st=0:d=3,afade=t=out:st=87.5:d=3[a1];[a0][a1]amix=inputs=2:duration=first:dropout_transition=3[a]"
    ));
}

#[test]
fn clip_bounds_become_seek_options() {
    let mut s = base_settings();
    s.clip_start_time = Some("10".to_string());
    s.clip_end_time = Some("80".to_string());
    s.fade_in_duration = Some(dec("1.5"));
    let cmd = command(s);
    assert_eq!(&cmd[3..7], &["-ss", "10", "-to", "80"]);
    assert_eq!(cmd[8], "[0:v]fade=t=in:st=0:d=1.5,fade=t=out:st=77:d=3[v]");
}

#[test]
fn progress_line_gives_elapsed_seconds() {
    let line = "frame=100 fps=25 q=28.0 size=1024kB time=00:00:45.00 bitrate=186.4kbits/s speed=1.0x";
    assert_eq!(parse_ffmpeg_progress(line).map(|d| d.micros), Some(45_000_000));
    assert_eq!(parse_ffmpeg_progress("frame=1 time=01:02:03.25 x").map(|d| d.micros), Some(3_723_250_000));
    assert_eq!(parse_ffmpeg_progress("frame=100 fps=25 size=1024kB"), None);
    assert_eq!(parse_ffmpeg_progress("time=00:00:45 bitrate=1"), None);
    assert_eq!(progress_from_fields("00", "00", "45.00").map(|d| d.micros), Some(45_000_000));
    assert_eq!(progress_from_fields("x", "00", "45.00"), None);

    let mut sup = Supervisor::new(&dec("90.5"), execution_mode(false));
    assert_eq!(sup.mode, ExecutionMode::WithProgress);
    assert_eq!(sup.length, 90);
    sup.start();
    assert_eq!(sup.on_line(line), Some(45));
    assert_eq!(sup.position, 45);
    assert_eq!(sup.on_line("no marker here"), None);
    assert_eq!(sup.position, 45);
    assert_eq!(sup.on_line("frame=20 fps=25 time=00:00:10.00 bitrate=1"), Some(45));
    assert_eq!(sup.position, 45);
    assert_eq!(sup.on_line("frame=200 fps=25 time=00:01:00.50 bitrate=1"), Some(60));
    assert_eq!(sup.position, 60);
    assert_eq!(sup.state, RunState::Running);
}

#[test]
fn failed_exit_is_reported_in_either_mode() {
    for verbose in [false, true] {
        let mut sup = Supervisor::new(&units(10), execution_mode(verbose));
        sup.start();
        assert_eq!(
            sup.on_exit(false, "exit status: 1"),
            Err("FFmpeg command failed with status: exit status: 1".to_string())
        );
        assert_eq!(sup.state, RunState::Failed);
    }
    let mut sup = Supervisor::new(&units(10), execution_mode(true));
    assert_eq!(sup.mode, ExecutionMode::PassThrough);
    sup.start();
    assert_eq!(sup.on_exit(true, "exit status: 0"), Ok(()));
    assert_eq!(sup.state, RunState::Succeeded);

    let mut sup = Supervisor::new(&units(10), ExecutionMode::WithProgress);
    assert_eq!(sup.on_launch_error("not found".to_string()), "not found");
    assert_eq!(sup.state, RunState::Failed);
}

#[test]
fn decimals_parse_and_print() {
    assert_eq!(dec("3").micros, 3_000_000);
    assert_eq!(dec("-0.25").micros, -250_000);
    assert_eq!(dec("+7.").micros, 7_000_000);
    assert_eq!(dec(".5").micros, 500_000);
    assert_eq!(dec("1.23456789").micros, 1_234_567);
    assert_eq!(parse_decimal_str(""), None);
    assert_eq!(parse_decimal_str("."), None);
    assert_eq!(parse_decimal_str("1.2.3"), None);
    assert_eq!(parse_decimal_str("abc"), None);
    assert_eq!(parse_decimal_str("10000000000000"), None);
    assert_eq!(dec("-0.25").text(), "-0.25");
    assert_eq!(dec("3.000").text(), "3");
    assert_eq!(dec("0.05").text(), "0.05");
    assert_eq!(dec("29.97").mul(&dec("1.5")).text(), "44.955");
    assert_eq!(dec("4").recip().map(|d| d.text()), Some("0.25".to_string()));
    assert_eq!(units(0).recip(), None);
}

#[test]
fn zero_speed_gives_infinite_factor() {
    let mut s = base_settings();
    s.video_speed = units(0);
    let plan = build_filters(&s, &timing(&s));
    assert!(plan.video.ends_with(",setpts=inf*PTS"));
}

#[test]
fn plan_carries_duration_and_mode() {
    let plan = plan_run(&Config { settings: base_settings() }, &probe_lines()).unwrap();
    assert_eq!(plan.duration.micros, 90_500_000);
    assert_eq!(plan.mode, ExecutionMode::WithProgress);
    let mut s = base_settings();
    s.advanced_log = true;
    let plan = plan_run(&Config { settings: s }, &probe_lines()).unwrap();
    assert_eq!(plan.mode, ExecutionMode::PassThrough);
    match plan_run(&Config { settings: base_settings() }, &Vec::new()) {
        Err(e) => assert_eq!(e.message(), "Could not determine video duration"),
        Ok(_) => panic!("probe should fail"),
    }
}

#[test]
fn probe_launch_failure_is_reported() {
    let e = PipelineError::Probe(ProbeError::LaunchFailed("No such file".to_string()));
    assert_eq!(e.message(), "No such file");
}

#[test]
fn marker_with_non_ascii_digits_gives_no_progress() {
    assert_eq!(parse_ffmpeg_progress("frame=1 time=\u{660}\u{660}:\u{660}\u{660}:\u{664}\u{665}.\u{660}\u{660} x"), None);
}
