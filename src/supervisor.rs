use vstd::prelude::*;

use crate::decimal::{lemma_decimal_nonneg, whole_units, Decimal};
use crate::probe::{hms_micros, hms_value};
use crate::settings::tokens;
use crate::text::{chars_of, push_str, string_of};

verus! {

/// The captures of the first progress marker `time=H:M:S` in a line (hours,
/// minutes, seconds), if the line has one.
pub uninterp spec fn time_marker_of(line: Seq<char>) -> Option<Seq<Seq<char>>>;

/// No group of a marker is empty or holds a minus sign.
pub open spec fn unsigned_groups(g: Seq<Seq<char>>) -> bool {
    &&& forall|i: int| 0 <= i < g.len() ==> (#[trigger] g[i]).len() > 0
    &&& forall|i: int, j: int| 0 <= i < g.len() && 0 <= j < g[i].len() ==> #[trigger] g[i][j] != '-'
}

/// Relies on `regex::Regex::captures` with the pattern `time=(\d+):(\d+):(\d+\.\d+)`:
/// the text of its three groups in the leftmost match, if any. Every group takes
/// part in a match and is made of digits (`\d`) and, in the last, one dot; none
/// is empty and none holds a minus sign.
#[verifier::external_body]
fn time_marker(line: &str) -> (r: Option<Vec<String>>)
    ensures
        r is Some <==> time_marker_of(line@) is Some,
        r is Some ==> tokens(r->0@) == time_marker_of(line@)->0 && r->0@.len() == 3,
        r is Some ==> unsigned_groups(tokens(r->0@)),
{
    let re = regex::Regex::new(r"time=(\d+):(\d+):(\d+\.\d+)").unwrap();
    re.captures(line).map(|c| vec![c[1].to_string(), c[2].to_string(), c[3].to_string()])
}

/// Elapsed time from the captured hours, minutes and seconds of a progress marker.
pub fn progress_from_fields(h: &str, m: &str, s: &str) -> (r: Option<Decimal>)
    ensures
        r is Some <==> hms_micros(h@, m@, s@) is Some,
        r is Some ==> r->0.wf() && r->0.micros == hms_micros(h@, m@, s@)->0,
{
    hms_value(&chars_of(h), &chars_of(m), &chars_of(s))
}

/// The elapsed time that a diagnostic line reports, if it carries a progress marker.
pub open spec fn progress_of(line: Seq<char>) -> Option<int> {
    match time_marker_of(line) {
        Some(g) => hms_micros(g[0], g[1], g[2]),
        None => None,
    }
}

/// The elapsed time of a line's progress marker; never negative.
pub fn parse_ffmpeg_progress(line: &str) -> (r: Option<Decimal>)
    ensures
        r is Some <==> progress_of(line@) is Some,
        r is Some ==> r->0.wf() && r->0.micros == progress_of(line@)->0,
        r is Some ==> r->0.micros >= 0,
{
    match time_marker(line) {
        Some(g) => {
            let ghost t = tokens(g@);
            assert(t[0] == g@[0]@ && t[1] == g@[1]@ && t[2] == g@[2]@);
            proof {
                assert(t[0].len() > 0 ==> t[0][0] != '-');
                assert(t[1].len() > 0 ==> t[1][0] != '-');
                assert(t[2].len() > 0 ==> t[2][0] != '-');
                lemma_decimal_nonneg(t[0]);
                lemma_decimal_nonneg(t[1]);
                lemma_decimal_nonneg(t[2]);
            }
            progress_from_fields(g[0].as_str(), g[1].as_str(), g[2].as_str())
        },
        None => None,
    }
}

#[derive(Clone, Copy, Debug, PartialEq, Eq, Structural)]
pub enum RunState {
    NotStarted,
    Running,
    Succeeded,
    Failed,
}

/// Pass-through lets the tool write to the caller's streams; tracked reads its
/// diagnostic stream and shows progress.
#[derive(Clone, Copy, Debug, PartialEq, Eq, Structural)]
pub enum ExecutionMode {
    PassThrough,
    WithProgress,
}

pub open spec fn mode_of(advanced_log: bool) -> ExecutionMode {
    if advanced_log {
        ExecutionMode::PassThrough
    } else {
        ExecutionMode::WithProgress
    }
}

/// Verbose logging passes the tool's output through; otherwise progress is shown.
pub fn execution_mode(advanced_log: bool) -> (r: ExecutionMode)
    ensures
        r == mode_of(advanced_log),
{
    if advanced_log {
        ExecutionMode::PassThrough
    } else {
        ExecutionMode::WithProgress
    }
}

pub open spec fn max_of(a: int, b: int) -> int {
    if a >= b {
        a
    } else {
        b
    }
}

pub open spec fn failure_message(status: Seq<char>) -> Seq<char> {
    "FFmpeg command failed with status: "@ + status
}

/// What a run's exit status means: success, or a failure that describes it.
pub open spec fn exit_outcome(success: bool, status: Seq<char>) -> Result<(), Seq<char>> {
    if success {
        Ok(())
    } else {
        Err(failure_message(status))
    }
}

/// The decisions of one supervised run of the tool: the caller launches the
/// process, hands over each diagnostic line and the exit status, and acts on
/// what comes back.
pub struct Supervisor {
    pub state: RunState,
    pub mode: ExecutionMode,
    /// The progress bound: whole seconds of the probed duration.
    pub length: u64,
    /// Whole seconds of the last reported elapsed time.
    pub position: u64,
}

impl Supervisor {
    pub fn new(duration: &Decimal, mode: ExecutionMode) -> (r: Supervisor)
        requires
            duration.wf(),
        ensures
            r.state == RunState::NotStarted,
            r.mode == mode,
            r.length == whole_units(duration.micros as int),
            r.position == 0,
    {
        Supervisor { state: RunState::NotStarted, mode, length: duration.whole(), position: 0 }
    }

    /// The process has been launched.
    pub fn start(&mut self)
        requires
            old(self).state == RunState::NotStarted,
        ensures
            *final(self) == (Supervisor { state: RunState::Running, ..*old(self) }),
    {
        self.state = RunState::Running;
    }

    /// A line of the diagnostic stream: where it reports the elapsed time, the
    /// position moves up to its whole seconds, never back, and is returned.
    pub fn on_line(&mut self, line: &str) -> (r: Option<u64>)
        requires
            old(self).state == RunState::Running,
        ensures
            r is Some <==> progress_of(line@) is Some,
            r is Some ==> r->0 == max_of(old(self).position as int, whole_units(progress_of(line@)->0))
                && *final(self) == (Supervisor {
                position: r->0,
                ..*old(self)
            }),
            r is None ==> *final(self) == *old(self),
    {
        match parse_ffmpeg_progress(line) {
            Some(e) => {
                let w = e.whole();
                let p = if w > self.position {
                    w
                } else {
                    self.position
                };
                self.position = p;
                Some(p)
            },
            None => None,
        }
    }

    /// The process could not be launched: the run fails with that description.
    pub fn on_launch_error(&mut self, reason: String) -> (r: String)
        requires
            old(self).state == RunState::NotStarted,
        ensures
            r@ == reason@,
            *final(self) == (Supervisor { state: RunState::Failed, ..*old(self) }),
    {
        self.state = RunState::Failed;
        reason
    }

    /// The process has exited: success, or a failure that describes the status.
    /// The outcome does not depend on the mode, and a failed run stays failed.
    pub fn on_exit(&mut self, success: bool, status: &str) -> (r: Result<(), String>)
        requires
            old(self).state == RunState::Running,
        ensures
            r is Ok <==> exit_outcome(success, status@) is Ok,
            r is Err ==> r->Err_0@ == exit_outcome(success, status@)->Err_0,
            *final(self) == (Supervisor {
                state: if success {
                    RunState::Succeeded
                } else {
                    RunState::Failed
                },
                ..*old(self)
            }),
    {
        if success {
            self.state = RunState::Succeeded;
            Ok(())
        } else {
            self.state = RunState::Failed;
            let mut v: Vec<char> = Vec::new();
            push_str(&mut v, "FFmpeg command failed with status: ");
            push_str(&mut v, status);
            Err(string_of(&v))
        }
    }
}

} // verus!
