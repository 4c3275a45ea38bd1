use vstd::prelude::*;

use crate::decimal::{abs, decimal_text, recip_micros, Decimal};
use crate::settings::{opt_view, Settings};
use crate::text::{is_set, push_chars, push_str, setting_present, string_of};
use crate::timing::ResolvedTiming;

verus! {

/// How the output's audio is made from the input's and the background track.
#[derive(Clone, Copy, Debug, PartialEq, Eq, Structural)]
pub enum AudioTopology {
    Direct,
    MixWithBackground,
    ReplaceWithBackground,
}

/// The video and audio filter chains, and the audio topology they feed.
pub struct FilterPlan {
    pub video: String,
    pub audio: String,
    pub topology: AudioTopology,
}

/// Speed is changed unless it is exactly one.
pub open spec fn speed_changed(s: Settings) -> bool {
    s.video_speed.micros != 1_000_000
}

/// A fade in from the start and a fade out at `fade_out_start`, for `kind` (`fade` or `afade`).
pub open spec fn fade_pair(kind: Seq<char>, t: ResolvedTiming) -> Seq<char> {
    kind + "=t=in:st=0:d="@ + decimal_text(t.fade_in.micros as int) + ","@ + kind
        + "=t=out:st="@ + decimal_text(t.fade_out_start.micros as int) + ":d="@ + decimal_text(
        t.fade_out.micros as int,
    )
}

/// The timestamp factor of a speed change, one over the speed; `inf` for speed zero.
pub open spec fn pts_factor_text(speed: int) -> Seq<char> {
    if speed == 0 {
        "inf"@
    } else {
        decimal_text(recip_micros(speed))
    }
}

/// The scale directive, where an upscale target is set.
pub open spec fn scale_part(s: Settings) -> Seq<char> {
    if is_set(opt_view(s.upscale_resolution)) {
        ",scale="@ + s.upscale_resolution->0@
    } else {
        Seq::empty()
    }
}

pub open spec fn video_chain(s: Settings, t: ResolvedTiming) -> Seq<char> {
    let scale = scale_part(s);
    let pts: Seq<char> = if speed_changed(s) {
        ",setpts="@ + pts_factor_text(s.video_speed.micros as int) + "*PTS"@
    } else {
        Seq::empty()
    };
    fade_pair("fade"@, t) + scale + pts
}

pub open spec fn audio_chain(s: Settings, t: ResolvedTiming) -> Seq<char> {
    if speed_changed(s) {
        fade_pair("afade"@, t) + ",atempo="@ + decimal_text(s.video_speed.micros as int)
    } else {
        fade_pair("afade"@, t)
    }
}

pub open spec fn topology_of(s: Settings) -> AudioTopology {
    if !is_set(opt_view(s.background_audio_path)) {
        AudioTopology::Direct
    } else if s.replace_audio {
        AudioTopology::ReplaceWithBackground
    } else {
        AudioTopology::MixWithBackground
    }
}

fn push_fade_pair(out: &mut Vec<char>, kind: &str, t: &ResolvedTiming)
    requires
        t.wf(),
    ensures
        final(out)@ == old(out)@ + fade_pair(kind@, *t),
{
    push_str(out, kind);
    push_str(out, "=t=in:st=0:d=");
    push_chars(out, &t.fade_in.text_chars());
    push_str(out, ",");
    push_str(out, kind);
    push_str(out, "=t=out:st=");
    push_chars(out, &t.fade_out_start.text_chars());
    push_str(out, ":d=");
    push_chars(out, &t.fade_out.text_chars());
    assert(final(out)@ =~= old(out)@ + fade_pair(kind@, *t));
}

/// Builds both filter chains and picks the audio topology.
pub fn build_filters(s: &Settings, t: &ResolvedTiming) -> (r: FilterPlan)
    requires
        s.wf(),
        t.wf(),
    ensures
        r.video@ == video_chain(*s, *t),
        r.audio@ == audio_chain(*s, *t),
        r.topology == topology_of(*s),
{
    let changed = s.video_speed.micros != 1_000_000;
    let mut v: Vec<char> = Vec::new();
    push_fade_pair(&mut v, "fade", t);
    let ghost v0 = v@;
    if setting_present(&s.upscale_resolution) {
        push_str(&mut v, ",scale=");
        match &s.upscale_resolution {
            Some(res) => push_str(&mut v, res.as_str()),
            None => {},
        }
    }
    let ghost v1 = v@;
    if changed {
        push_str(&mut v, ",setpts=");
        match s.video_speed.recip() {
            Some(q) => push_chars(&mut v, &q.text_chars()),
            None => push_str(&mut v, "inf"),
        }
        push_str(&mut v, "*PTS");
    }
    proof {
        if changed {
            assert(v@ =~= v1 + (",setpts="@ + pts_factor_text(s.video_speed.micros as int)
                + "*PTS"@));
        } else {
            assert(v@ =~= v1 + Seq::<char>::empty());
        }
        if is_set(opt_view(s.upscale_resolution)) {
            assert(v1 =~= v0 + (",scale="@ + s.upscale_resolution->0@));
        } else {
            assert(v1 =~= v0 + Seq::<char>::empty());
        }
        assert(v1 =~= v0 + scale_part(*s));
        assert(v@ =~= video_chain(*s, *t));
    }
    let mut a: Vec<char> = Vec::new();
    push_fade_pair(&mut a, "afade", t);
    if changed {
        push_str(&mut a, ",atempo=");
        push_chars(&mut a, &s.video_speed.text_chars());
    }
    assert(a@ =~= audio_chain(*s, *t));
    let topology = if !setting_present(&s.background_audio_path) {
        AudioTopology::Direct
    } else if s.replace_audio {
        AudioTopology::ReplaceWithBackground
    } else {
        AudioTopology::MixWithBackground
    };
    FilterPlan { video: string_of(&v), audio: string_of(&a), topology }
}

} // verus!
