use vstd::prelude::*;

use crate::decimal::{abs, decimal_of, parse_decimal, Decimal, LIMIT};
use crate::text::{after, before, chars_of, contains, contains_str, find, match_at, sub_chars};

verus! {

/// What the probe run tells of the input: its length and frame rate.
pub struct ProbeResult {
    pub duration: Decimal,
    pub framerate: Decimal,
}

#[derive(Debug, PartialEq, Eq)]
pub enum ProbeError {
    /// The probe process could not be started; the reason given.
    LaunchFailed(String),
    DurationNotFound,
    FrameRateNotFound,
}

impl ProbeResult {
    pub open spec fn wf(&self) -> bool {
        self.duration.wf() && self.framerate.wf()
    }
}

pub open spec fn line_seqs(lines: Seq<String>) -> Seq<Seq<char>> {
    lines.map_values(|l: String| l@)
}

pub open spec fn is_duration_line(l: Seq<char>) -> bool {
    contains(l, "Duration"@)
}

pub open spec fn is_video_line(l: Seq<char>) -> bool {
    contains(l, "Stream"@) && contains(l, "Video"@)
}

/// The first line at or after `i` that names the duration, or -1.
pub open spec fn first_duration_line(ls: Seq<Seq<char>>, i: int) -> int
    decreases ls.len() - i,
{
    if i < 0 || i >= ls.len() {
        -1
    } else if is_duration_line(ls[i]) {
        i
    } else {
        first_duration_line(ls, i + 1)
    }
}

proof fn lemma_first_lines(ls: Seq<Seq<char>>, i: int)
    ensures
        first_duration_line(ls, i) < ls.len(),
        first_video_line(ls, i) < ls.len(),
    decreases ls.len() - i,
{
    if 0 <= i < ls.len() {
        lemma_first_lines(ls, i + 1);
    }
}

/// The first line at or after `i` that describes a video stream, or -1.
pub open spec fn first_video_line(ls: Seq<Seq<char>>, i: int) -> int
    decreases ls.len() - i,
{
    if i < 0 || i >= ls.len() {
        -1
    } else if is_video_line(ls[i]) {
        i
    } else {
        first_video_line(ls, i + 1)
    }
}

/// Hours, minutes and seconds as millionths of a second.
pub open spec fn hms_micros(h: Seq<char>, m: Seq<char>, s: Seq<char>) -> Option<int> {
    match (decimal_of(h), decimal_of(m), decimal_of(s)) {
        (Some(a), Some(b), Some(c)) => {
            let v = 3600 * a + 60 * b + c;
            if abs(v) <= LIMIT {
                Some(v)
            } else {
                None
            }
        },
        _ => None,
    }
}

/// The `HH:MM:SS.ms` token between `Duration: ` and the next comma, in millionths.
pub open spec fn duration_of_line(line: Seq<char>) -> Option<int> {
    match after(line, "Duration: "@) {
        None => None,
        Some(rest) => {
            let tok = before(before(rest, "Duration: "@), ","@);
            match after(tok, ":"@) {
                None => None,
                Some(r1) => match after(r1, ":"@) {
                    None => None,
                    Some(r2) => hms_micros(before(tok, ":"@), before(r1, ":"@), before(r2, ":"@)),
                },
            }
        },
    }
}

pub open spec fn is_space(c: char) -> bool {
    c == ' ' || c == '\t' || c == '\n' || c == '\r' || c == '\x0B' || c == '\x0C'
}

pub open spec fn trim_end(s: Seq<char>) -> Seq<char>
    decreases s.len(),
{
    if s.len() > 0 && is_space(s.last()) {
        trim_end(s.drop_last())
    } else {
        s
    }
}

/// The characters after the last space.
pub open spec fn last_run(s: Seq<char>) -> Seq<char>
    decreases s.len(),
{
    if s.len() == 0 || is_space(s.last()) {
        Seq::empty()
    } else {
        last_run(s.drop_last()).push(s.last())
    }
}

/// The last whitespace-separated word.
pub open spec fn last_word(s: Seq<char>) -> Seq<char> {
    last_run(trim_end(s))
}

/// The number just before `fps`, in millionths.
pub open spec fn framerate_of_line(line: Seq<char>) -> Option<int> {
    decimal_of(last_word(before(line, "fps"@)))
}

/// Duration and frame rate from the probe's diagnostic lines, in millionths;
/// each is taken from the first line that carries its marker.
pub open spec fn probe_of(ls: Seq<Seq<char>>) -> Result<(int, int), ProbeError> {
    let di = first_duration_line(ls, 0);
    let fi = first_video_line(ls, 0);
    if di < 0 || duration_of_line(ls[di]) is None {
        Err(ProbeError::DurationNotFound)
    } else if fi < 0 || framerate_of_line(ls[fi]) is None {
        Err(ProbeError::FrameRateNotFound)
    } else {
        Ok((duration_of_line(ls[di])->0, framerate_of_line(ls[fi])->0))
    }
}

fn split_first(s: &Vec<char>, p: &str) -> (r: (Vec<char>, Option<Vec<char>>))
    ensures
        r.0@ == before(s@, p@),
        r.1 is Some <==> after(s@, p@) is Some,
        r.1 is Some ==> r.1->0@ == after(s@, p@)->0,
{
    let pv = chars_of(p);
    match find(s, &pv) {
        Some(k) => {
            assert(match_at(s@, pv@, k as int));
            let head = sub_chars(s, 0, k);
            let n = s.len();
            assert(k + pv@.len() <= n);
            let start = k + pv.len();
            let tail = sub_chars(s, start, s.len());
            assert(tail@ =~= s@.skip(k + pv@.len()));
            (head, Some(tail))
        },
        None => {
            let head = sub_chars(s, 0, s.len());
            assert(head@ =~= s@);
            (head, None)
        },
    }
}

/// Reads the duration from a line that carries `Duration: HH:MM:SS.ms,`.
pub fn duration_from_line(line: &Vec<char>) -> (r: Option<Decimal>)
    ensures
        r is Some <==> duration_of_line(line@) is Some,
        r is Some ==> r->0.micros == duration_of_line(line@)->0 && r->0.wf(),
{
    let (_, rest) = split_first(line, "Duration: ");
    let rest = match rest {
        Some(r) => r,
        None => {
            return None;
        },
    };
    let (seg, _) = split_first(&rest, "Duration: ");
    let (tok, _) = split_first(&seg, ",");
    let (h, r1) = split_first(&tok, ":");
    let r1 = match r1 {
        Some(r) => r,
        None => {
            return None;
        },
    };
    let (m, r2) = split_first(&r1, ":");
    let r2 = match r2 {
        Some(r) => r,
        None => {
            return None;
        },
    };
    let (sec, _) = split_first(&r2, ":");
    hms_value(&h, &m, &sec)
}

/// Hours, minutes and seconds, each a decimal number, as one time: see `hms_micros`.
pub fn hms_value(h: &Vec<char>, m: &Vec<char>, s: &Vec<char>) -> (r: Option<Decimal>)
    ensures
        r is Some <==> hms_micros(h@, m@, s@) is Some,
        r is Some ==> r->0.micros == hms_micros(h@, m@, s@)->0 && r->0.wf(),
{
    let a = parse_decimal(h)?;
    let b = parse_decimal(m)?;
    let c = parse_decimal(s)?;
    let v: i128 = 3600 * a.micros + 60 * b.micros + c.micros;
    if v > LIMIT || v < -LIMIT {
        return None;
    }
    Some(Decimal { micros: v })
}

fn is_space_char(c: char) -> (r: bool)
    ensures
        r == is_space(c),
{
    c == ' ' || c == '\t' || c == '\n' || c == '\r' || c == '\x0B' || c == '\x0C'
}

proof fn lemma_last_run_empty(s: Seq<char>)
    requires
        s.len() == 0 || is_space(s.last()),
    ensures
        last_run(s) == Seq::<char>::empty(),
{
}

/// The last whitespace-separated word of `s`.
pub fn last_word_of(s: &Vec<char>) -> (r: Vec<char>)
    ensures
        r@ == last_word(s@),
{
    let mut e: usize = s.len();
    assert(s@.take(e as int) =~= s@);
    while e > 0 && is_space_char(s[e - 1])
        invariant
            e <= s@.len(),
            trim_end(s@) == trim_end(s@.take(e as int)),
        decreases e,
    {
        assert(s@.take(e as int).drop_last() =~= s@.take(e - 1));
        e = e - 1;
    }
    let t = sub_chars(s, 0, e);
    assert(t@ =~= s@.take(e as int));
    assert(trim_end(t@) == t@);
    let mut j: usize = e;
    assert(t@.take(e as int) =~= t@);
    assert(last_run(t@) + t@.subrange(e as int, e as int) =~= last_run(t@));
    while j > 0 && !is_space_char(t[j - 1])
        invariant
            j <= e == t@.len(),
            last_run(t@) == last_run(t@.take(j as int)) + t@.subrange(j as int, e as int),
        decreases j,
    {
        let ghost tj = t@.take(j as int);
        assert(tj.drop_last() =~= t@.take(j - 1));
        assert(last_run(tj) == last_run(t@.take(j - 1)).push(t@[j - 1]));
        assert(last_run(t@.take(j - 1)).push(t@[j - 1]) + t@.subrange(j as int, e as int)
            =~= last_run(t@.take(j - 1)) + t@.subrange(j - 1, e as int));
        j = j - 1;
    }
    proof {
        lemma_last_run_empty(t@.take(j as int));
        assert(last_run(t@.take(j as int)) + t@.subrange(j as int, e as int) =~= t@.subrange(
            j as int,
            e as int,
        ));
    }
    assert(t@.take(e as int) =~= t@);
    sub_chars(&t, j, e)
}

/// Reads the frame rate: the number just before `fps`.
pub fn framerate_from_line(line: &Vec<char>) -> (r: Option<Decimal>)
    ensures
        r is Some <==> framerate_of_line(line@) is Some,
        r is Some ==> r->0.micros == framerate_of_line(line@)->0 && r->0.wf(),
{
    let (head, _) = split_first(line, "fps");
    let w = last_word_of(&head);
    parse_decimal(&w)
}

/// Scans the probe's diagnostic lines for the input's duration and frame rate.
pub fn probe_from_lines(lines: &Vec<String>) -> (r: Result<ProbeResult, ProbeError>)
    ensures
        r is Ok <==> probe_of(line_seqs(lines@)) is Ok,
        r is Err ==> r->Err_0 == probe_of(line_seqs(lines@))->Err_0,
        r is Ok ==> r->Ok_0.wf() && r->Ok_0.duration.micros == probe_of(line_seqs(lines@))->Ok_0.0
            && r->Ok_0.framerate.micros == probe_of(line_seqs(lines@))->Ok_0.1,
{
    let ghost ls = line_seqs(lines@);
    let mut dur: Option<Decimal> = None;
    let mut fps: Option<Decimal> = None;
    let mut found_d = false;
    let mut found_f = false;
    let mut i: usize = 0;
    proof {
        lemma_first_lines(ls, 0);
    }
    while i < lines.len()
        invariant
            first_duration_line(ls, 0) < ls.len(),
            first_video_line(ls, 0) < ls.len(),
            !found_d ==> dur is None,
            !found_f ==> fps is None,
            i <= lines@.len(),
            ls == line_seqs(lines@),
            ls.len() == lines@.len(),
            found_d ==> first_duration_line(ls, 0) >= 0 && (dur is Some <==> duration_of_line(
                ls[first_duration_line(ls, 0)],
            ) is Some) && (dur is Some ==> dur->0.micros == duration_of_line(
                ls[first_duration_line(ls, 0)],
            )->0 && dur->0.wf()),
            !found_d ==> first_duration_line(ls, 0) == first_duration_line(ls, i as int),
            found_f ==> first_video_line(ls, 0) >= 0 && (fps is Some <==> framerate_of_line(
                ls[first_video_line(ls, 0)],
            ) is Some) && (fps is Some ==> fps->0.micros == framerate_of_line(
                ls[first_video_line(ls, 0)],
            )->0 && fps->0.wf()),
            !found_f ==> first_video_line(ls, 0) == first_video_line(ls, i as int),
        decreases lines.len() - i,
    {
        let l = chars_of(lines[i].as_str());
        assert(l@ == ls[i as int]);
        assert(first_duration_line(ls, i as int) == if is_duration_line(ls[i as int]) {
            i as int
        } else {
            first_duration_line(ls, i + 1)
        });
        assert(first_video_line(ls, i as int) == if is_video_line(ls[i as int]) {
            i as int
        } else {
            first_video_line(ls, i + 1)
        });
        if !found_d && contains_str(&l, "Duration") {
            found_d = true;
            dur = duration_from_line(&l);
        }
        if !found_f && contains_str(&l, "Stream") && contains_str(&l, "Video") {
            found_f = true;
            fps = framerate_from_line(&l);
        }
        i = i + 1;
    }
    assert(first_duration_line(ls, i as int) == -1);
    assert(first_video_line(ls, i as int) == -1);
    let d = match dur {
        Some(d) => d,
        None => {
            return Err(ProbeError::DurationNotFound);
        },
    };
    let f = match fps {
        Some(f) => f,
        None => {
            return Err(ProbeError::FrameRateNotFound);
        },
    };
    Ok(ProbeResult { duration: d, framerate: f })
}

} // verus!
