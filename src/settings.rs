use vstd::prelude::*;

use crate::decimal::Decimal;
use crate::text::{push_str, string_of};

verus! {

/// What the user asks of one run: paths, encoding choices, timing and audio mixing.
pub struct Settings {
    pub input_video_path: String,
    pub output_video_path: String,
    pub ffmpeg_path: String,
    pub use_gpu: bool,
    pub video_bitrate: String,
    pub crf: Option<String>,
    pub upscale_resolution: Option<String>,
    pub background_audio_path: Option<String>,
    pub audio_start_time: Decimal,
    pub replace_audio: bool,
    pub original_audio_volume: Decimal,
    pub background_audio_volume: Decimal,
    pub clip_start_time: Option<String>,
    pub clip_end_time: Option<String>,
    pub video_speed: Decimal,
    pub advanced_log: bool,
    pub fade_in_duration: Option<Decimal>,
    pub fade_out_duration: Option<Decimal>,
}

pub struct Config {
    pub settings: Settings,
}

pub open spec fn opt_view(v: Option<String>) -> Option<Seq<char>> {
    match v {
        Some(s) => Some(s@),
        None => None,
    }
}

pub open spec fn opt_wf(v: Option<Decimal>) -> bool {
    v is Some ==> v->0.wf()
}

/// The argument tokens of a command, as character sequences.
pub open spec fn tokens(v: Seq<String>) -> Seq<Seq<char>> {
    v.map_values(|s: String| s@)
}

impl Settings {
    /// Every decimal setting lies within the range that parsing admits.
    pub open spec fn wf(&self) -> bool {
        self.audio_start_time.wf() && self.original_audio_volume.wf()
            && self.background_audio_volume.wf() && self.video_speed.wf() && opt_wf(
            self.fade_in_duration,
        ) && opt_wf(self.fade_out_duration)
    }

    /// The first required setting that is empty, by name.
    pub open spec fn missing_key(&self) -> Option<Seq<char>> {
        if self.input_video_path@.len() == 0 {
            Some("input_video_path"@)
        } else if self.output_video_path@.len() == 0 {
            Some("output_video_path"@)
        } else if self.ffmpeg_path@.len() == 0 {
            Some("ffmpeg_path"@)
        } else if self.video_bitrate@.len() == 0 {
            Some("video_bitrate"@)
        } else {
            None
        }
    }
}

pub open spec fn missing_message(key: Seq<char>) -> Seq<char> {
    "Missing required config key: "@ + key
}

/// The arguments of the probe run: the input named, no output produced.
pub open spec fn probe_args(s: Settings) -> Seq<Seq<char>> {
    seq![s.ffmpeg_path@, "-i"@, s.input_video_path@, "-hide_banner"@]
}

fn missing(key: &str) -> (r: String)
    ensures
        r@ == missing_message(key@),
{
    let mut v: Vec<char> = Vec::new();
    push_str(&mut v, "Missing required config key: ");
    push_str(&mut v, key);
    string_of(&v)
}

impl Config {
    /// Fails, naming the first empty one, where a required setting is empty.
    pub fn validate(&self) -> (r: Result<(), String>)
        ensures
            r is Err <==> self.settings.missing_key() is Some,
            r is Err ==> r->Err_0@ == missing_message(self.settings.missing_key()->0),
    {
        let s = &self.settings;
        if s.input_video_path.as_str().is_empty() {
            return Err(missing("input_video_path"));
        }
        if s.output_video_path.as_str().is_empty() {
            return Err(missing("output_video_path"));
        }
        if s.ffmpeg_path.as_str().is_empty() {
            return Err(missing("ffmpeg_path"));
        }
        if s.video_bitrate.as_str().is_empty() {
            return Err(missing("video_bitrate"));
        }
        Ok(())
    }

    /// The probe command, handed out only once the settings have passed validation.
    pub fn probe_command(&self) -> (r: Result<Vec<String>, String>)
        ensures
            r is Err <==> self.settings.missing_key() is Some,
            r is Err ==> r->Err_0@ == missing_message(self.settings.missing_key()->0),
            r is Ok ==> tokens(r->Ok_0@) == probe_args(self.settings),
    {
        self.validate()?;
        let s = &self.settings;
        let v = vec![
            s.ffmpeg_path.clone(),
            String::from_str("-i"),
            s.input_video_path.clone(),
            String::from_str("-hide_banner"),
        ];
        assert(tokens(v@) =~= probe_args(*s));
        Ok(v)
    }
}

} // verus!
