use vstd::prelude::*;

use crate::decimal::{decimal_of, parse_decimal_str, Decimal};
use crate::settings::{opt_view, Settings};
use crate::text::{is_none_word, none_word};

verus! {

/// Clip bounds and fades as absolute times, in the input's timeline.
pub struct ResolvedTiming {
    pub clip_start: Decimal,
    pub clip_end: Decimal,
    pub fade_in: Decimal,
    pub fade_out: Decimal,
    pub fade_out_start: Decimal,
}

#[derive(Debug, PartialEq, Eq, Structural)]
pub enum TimingError {
    InvalidClipStart,
    InvalidClipEnd,
}

/// A clip bound: absent or "none" gives `default`; otherwise the number written.
pub open spec fn bound_of(v: Option<Seq<char>>, default: int) -> Option<int> {
    match v {
        None => Some(default),
        Some(s) => if is_none_word(s) {
            Some(default)
        } else {
            decimal_of(s)
        },
    }
}

/// A fade length, three seconds where unset.
pub open spec fn fade_or_default(v: Option<Decimal>) -> int {
    match v {
        Some(d) => d.micros as int,
        None => 3_000_000,
    }
}

impl ResolvedTiming {
    pub open spec fn wf(&self) -> bool {
        &&& self.clip_start.wf()
        &&& self.clip_end.wf()
        &&& self.fade_in.wf()
        &&& self.fade_out.wf()
        &&& self.fade_out_start.micros == self.clip_end.micros - self.fade_out.micros
    }

    /// The timing that `s` asks for on an input of `duration` millionths.
    pub open spec fn resolves(&self, s: Settings, duration: int) -> bool {
        &&& Some(self.clip_start.micros as int) == bound_of(opt_view(s.clip_start_time), 0)
        &&& Some(self.clip_end.micros as int) == bound_of(opt_view(s.clip_end_time), duration)
        &&& self.fade_in.micros == fade_or_default(s.fade_in_duration)
        &&& self.fade_out.micros == fade_or_default(s.fade_out_duration)
        &&& self.fade_out_start.micros == self.clip_end.micros - self.fade_out.micros
    }
}

fn resolve_bound(v: &Option<String>, default: &Decimal) -> (r: Option<Decimal>)
    requires
        default.wf(),
    ensures
        r is Some <==> bound_of(opt_view(*v), default.micros as int) is Some,
        r is Some ==> r->0.wf() && r->0.micros == bound_of(
            opt_view(*v),
            default.micros as int,
        )->0,
{
    match v {
        None => Some(*default),
        Some(s) => if none_word(s.as_str()) {
            Some(*default)
        } else {
            parse_decimal_str(s.as_str())
        },
    }
}

/// Resolves clip bounds and fades against the probed duration.
pub fn resolve_timing(duration: &Decimal, settings: &Settings) -> (r: Result<
    ResolvedTiming,
    TimingError,
>)
    requires
        duration.wf(),
        settings.wf(),
    ensures
        r == Err::<ResolvedTiming, TimingError>(TimingError::InvalidClipStart) <==> bound_of(
            opt_view(settings.clip_start_time),
            0,
        ) is None,
        r == Err::<ResolvedTiming, TimingError>(TimingError::InvalidClipEnd) <==> bound_of(
            opt_view(settings.clip_start_time),
            0,
        ) is Some && bound_of(opt_view(settings.clip_end_time), duration.micros as int) is None,
        r is Ok ==> r->Ok_0.wf() && r->Ok_0.resolves(*settings, duration.micros as int),
{
    let zero = Decimal::from_micros(0);
    let start = match resolve_bound(&settings.clip_start_time, &zero) {
        Some(v) => v,
        None => {
            return Err(TimingError::InvalidClipStart);
        },
    };
    let end = match resolve_bound(&settings.clip_end_time, duration) {
        Some(v) => v,
        None => {
            return Err(TimingError::InvalidClipEnd);
        },
    };
    let default_fade = Decimal::from_units(3);
    let fade_in = match settings.fade_in_duration {
        Some(d) => d,
        None => default_fade,
    };
    let fade_out = match settings.fade_out_duration {
        Some(d) => d,
        None => default_fade,
    };
    let fade_out_start = end.sub(&fade_out);
    Ok(ResolvedTiming { clip_start: start, clip_end: end, fade_in, fade_out, fade_out_start })
}

} // verus!
