//! Classification of log lines into session-start and reset events.
//!
//! A line is meaningful when it contains one of a few literal markers; the
//! match is by substring containment so that extra fields around a marker do
//! not break recognition.
use crate::timeparse;
use vstd::prelude::*;

verus! {

/// The pattern occurs in `s` starting exactly at index `i`.
pub open spec fn contains_at(s: Seq<char>, p: Seq<char>, i: int) -> bool {
    &&& 0 <= i
    &&& i + p.len() <= s.len()
    &&& s.subrange(i, i + p.len() as int) == p
}

/// The pattern occurs somewhere in `s`.
pub open spec fn contains_seq(s: Seq<char>, p: Seq<char>) -> bool {
    exists|i: int| contains_at(s, p, i)
}

/// The pattern `p` matches `s` at position `i`.
fn matches_at(s: &str, p: &str, i: usize) -> (r: bool)
    requires
        i + p@.len() <= s@.len(),
    ensures
        r == contains_at(s@, p@, i as int),
{
    let n = s.unicode_len();
    let m = p.unicode_len();
    let mut j: usize = 0;
    while j < m
        invariant
            n == s@.len(),
            m == p@.len(),
            i + m <= s@.len(),
            j <= m,
            forall|t: int| 0 <= t < j ==> s@[i + t] == p@[t],
        decreases m - j,
    {
        if s.get_char(i + j) != p.get_char(j) {
            proof {
                let sub = s@.subrange(i as int, i + m as int);
                assert(sub[j as int] == s@[i + j]);
            }
            return false;
        }
        j += 1;
    }
    proof {
        assert(s@.subrange(i as int, i + p@.len() as int) =~= p@);
    }
    true
}

/// Substring search: decides `contains_seq(s@, p@)`.
pub fn contains_str(s: &str, p: &str) -> (r: bool)
    ensures
        r == contains_seq(s@, p@),
{
    let n = s.unicode_len();
    let m = p.unicode_len();
    if m > n {
        return false;
    }
    if m == 0 {
        proof {
            assert(s@.subrange(0, 0) =~= p@);
            assert(contains_at(s@, p@, 0));
        }
        return true;
    }
    let mut i: usize = 0;
    while i <= n - m
        invariant
            n == s@.len(),
            m == p@.len(),
            1 <= m <= n,
            i <= n - m + 1,
            forall|k: int| 0 <= k < i ==> !contains_at(s@, p@, k),
        decreases n - i,
    {
        if matches_at(s, p, i) {
            return true;
        }
        i += 1;
    }
    proof {
        assert forall|k: int| !contains_at(s@, p@, k) by {
            if 0 <= k < i {
            } else if k >= i {
                assert(k + m > n);
            }
        }
    }
    false
}

/// The session-start marker: the watched program announces a fresh run.
pub open spec fn is_session_line(s: Seq<char>) -> bool {
    contains_seq(s, "[INFO] Running version"@)
}

/// The reset markers; the sub-kinds count alike.
pub open spec fn is_reset_line(s: Seq<char>) -> bool {
    ||| contains_seq(s, "Reset: full"@)
    ||| contains_seq(s, "Reset: yaw"@)
    ||| contains_seq(s, "Reset: quick"@)
    ||| contains_seq(s, "Reset: fast"@)
}

/// What a line means to the tracker.
#[derive(Clone, Copy, Debug, PartialEq, Eq, Structural)]
pub enum LineClass {
    SessionStart,
    ResetMark,
    Other,
}

/// Classification of a line; a line holding both markers counts as a
/// session start.
pub open spec fn classify_line(s: Seq<char>) -> LineClass {
    if is_session_line(s) {
        LineClass::SessionStart
    } else if is_reset_line(s) {
        LineClass::ResetMark
    } else {
        LineClass::Other
    }
}

/// Decides `classify_line`.
pub fn classify(line: &str) -> (c: LineClass)
    ensures
        c == classify_line(line@),
{
    if contains_str(line, "[INFO] Running version") {
        LineClass::SessionStart
    } else if contains_str(line, "Reset: full") || contains_str(line, "Reset: yaw")
        || contains_str(line, "Reset: quick") || contains_str(line, "Reset: fast") {
        LineClass::ResetMark
    } else {
        LineClass::Other
    }
}

/// The tracker's state: how many resets the current session has seen and the
/// UTC instant, in milliseconds, of the last recognized event.
#[derive(Clone, Copy, Debug)]
pub struct LastResetData {
    pub num: i64,
    pub timestamp_utc_ms: i64,
}

impl LastResetData {
    /// The count is never negative.
    pub open spec fn wf(self) -> bool {
        self.num >= 0
    }
}

impl Default for LastResetData {
    /// A fresh state: no resets seen, stamped with the current clock reading.
    fn default() -> (r: Self)
        ensures
            r.num == 0,
            r.wf(),
    {
        LastResetData { num: 0, timestamp_utc_ms: timeparse::now_utc_ms() }
    }
}

/// One parser step: how a classified line, with the timestamp it carried (if
/// any), rewrites the state. A session start resets the count, a reset marker
/// increments it, anything else leaves the state alone; the timestamp is
/// replaced only when the line carried one.
pub open spec fn step_spec(s: LastResetData, c: LineClass, ts: Option<i64>) -> LastResetData {
    match c {
        LineClass::SessionStart => LastResetData {
            num: 0,
            timestamp_utc_ms: ts_or(ts, s.timestamp_utc_ms),
        },
        LineClass::ResetMark => LastResetData {
            num: (s.num + 1) as i64,
            timestamp_utc_ms: ts_or(ts, s.timestamp_utc_ms),
        },
        LineClass::Other => s,
    }
}

/// The carried timestamp, or the previous one when the line had none.
pub open spec fn ts_or(ts: Option<i64>, prev: i64) -> i64 {
    match ts {
        Some(t) => t,
        None => prev,
    }
}

impl LastResetData {
    /// Classifies one newly read line and updates the state in place.
    ///
    /// An unrecognized line changes nothing and emits nothing; a marker line
    /// rewrites the state as `step_spec` says and emits the new state. A
    /// marker line whose leading tokens are not a well-formed timestamp keeps
    /// the previous timestamp.
    pub fn parse_line(&mut self, line: &str) -> (r: Option<LastResetData>)
        requires
            old(self).wf(),
            old(self).num < i64::MAX,
        ensures
            final(self).wf(),
            classify_line(line@) is Other ==> r is None && *final(self) == *old(self),
            !(classify_line(line@) is Other) ==> r == Some(*final(self)),
            classify_line(line@) is SessionStart ==> final(self).num == 0,
            classify_line(line@) is ResetMark ==> final(self).num == old(self).num + 1,
            timeparse::timestamp_prefix(line@) is None ==> final(self).timestamp_utc_ms == old(
                self,
            ).timestamp_utc_ms,
            exists|ts: Option<i64>|
                {
                    &&& *final(self) == step_spec(*old(self), classify_line(line@), ts)
                    &&& (timeparse::timestamp_prefix(line@) is None ==> ts is None)
                },
    {
        let class = classify(line);
        if let LineClass::Other = class {
            proof {
                assert(*self == step_spec(*old(self), classify_line(line@), None::<i64>));
            }
            return None;
        }
        if let LineClass::SessionStart = class {
            self.num = 0;
        } else {
            self.num = self.num + 1;
        }
        let mut carried: Option<i64> = None;
        if let Some(p) = timeparse::parse_timestamp_parts(line) {
            if let Some(ms) = timeparse::local_parts_to_utc_ms(&p) {
                self.timestamp_utc_ms = ms;
                carried = Some(ms);
            }
        }
        proof {
            assert(*self == step_spec(*old(self), classify_line(line@), carried));
        }
        Some(*self)
    }
}

/// The decision of the consuming loop whether a just-arrived event is worth
/// logging: only a genuine new reset (count grew within a session) that is
/// fresh (under two seconds old) is.
pub fn should_log_reset(prev_num: i64, new_num: i64, ms_since_event: i64) -> (r: bool)
    ensures
        r == (prev_num > 0 && new_num > prev_num && ms_since_event < 2000),
{
    prev_num > 0 && new_num > prev_num && ms_since_event < 2000
}

/// The parser run over a whole sequence of classified lines.
pub open spec fn run_steps(init: LastResetData, steps: Seq<(LineClass, Option<i64>)>) -> LastResetData
    decreases steps.len(),
{
    if steps.len() == 0 {
        init
    } else {
        run_steps(step_spec(init, steps[0].0, steps[0].1), steps.drop_first())
    }
}

/// How many of the steps are reset markers.
pub open spec fn count_reset_marks(steps: Seq<(LineClass, Option<i64>)>) -> int
    decreases steps.len(),
{
    if steps.len() == 0 {
        0
    } else {
        (if steps[0].0 is ResetMark {
            1int
        } else {
            0int
        }) + count_reset_marks(steps.drop_first())
    }
}

/// No step is a session start.
pub open spec fn no_session_start(steps: Seq<(LineClass, Option<i64>)>) -> bool {
    forall|k: int| 0 <= k < steps.len() ==> !(steps[k].0 is SessionStart)
}

/// Law: within one session the count is non-decreasing; absent a session
/// start it grows by exactly one per reset marker, so the emitted count
/// sequence never goes down between session starts.
pub proof fn lemma_count_within_session(init: LastResetData, steps: Seq<(LineClass, Option<i64>)>)
    requires
        no_session_start(steps),
        init.num >= 0,
        init.num + count_reset_marks(steps) <= i64::MAX,
    ensures
        run_steps(init, steps).num == init.num + count_reset_marks(steps),
    decreases steps.len(),
{
    lemma_count_reset_marks_bounds(steps);
    if steps.len() > 0 {
        let next = step_spec(init, steps[0].0, steps[0].1);
        lemma_count_reset_marks_bounds(steps.drop_first());
        lemma_count_within_session(next, steps.drop_first());
    }
}

/// The reset-marker count lies between zero and the number of steps.
pub proof fn lemma_count_reset_marks_bounds(steps: Seq<(LineClass, Option<i64>)>)
    ensures
        0 <= count_reset_marks(steps) <= steps.len(),
    decreases steps.len(),
{
    if steps.len() > 0 {
        lemma_count_reset_marks_bounds(steps.drop_first());
    }
}

/// Law: the count returns to zero exactly at a session start. After the last
/// session start of a run, the count equals the number of reset markers seen
/// since it, whatever the state held before.
pub proof fn lemma_count_resets_at_session_start(
    init: LastResetData,
    steps: Seq<(LineClass, Option<i64>)>,
    k: int,
)
    requires
        0 <= k < steps.len(),
        steps[k].0 is SessionStart,
        forall|j: int| k < j < steps.len() ==> !(steps[j].0 is SessionStart),
        count_reset_marks(steps.subrange(k + 1, steps.len() as int)) <= i64::MAX,
    ensures
        run_steps(init, steps).num == count_reset_marks(steps.subrange(k + 1, steps.len() as int)),
    decreases steps.len(),
{
    let tail = steps.drop_first();
    if k == 0 {
        let next = step_spec(init, steps[0].0, steps[0].1);
        assert(next.num == 0);
        assert(tail =~= steps.subrange(1, steps.len() as int));
        lemma_count_reset_marks_bounds(tail);
        lemma_count_within_session(next, tail);
    } else {
        let next = step_spec(init, steps[0].0, steps[0].1);
        assert(tail.subrange(k, tail.len() as int) =~= steps.subrange(k + 1, steps.len() as int));
        lemma_count_resets_at_session_start(next, tail, k - 1);
    }
}

/// Law: a line that matches no marker is a no-op on the state (and, by
/// `parse_line`'s contract, emits nothing).
pub proof fn lemma_other_line_is_noop(s: LastResetData, ts: Option<i64>)
    ensures
        step_spec(s, LineClass::Other, ts) == s,
{
}

/// The carried timestamps never move backward from `t0`: each step either
/// carries none or carries one at least as large as every one before it.
pub open spec fn timestamps_monotone_from(t0: int, steps: Seq<(LineClass, Option<i64>)>) -> bool
    decreases steps.len(),
{
    steps.len() == 0 || (match steps[0].1 {
        Some(t) => t0 <= t && timestamps_monotone_from(t as int, steps.drop_first()),
        None => timestamps_monotone_from(t0, steps.drop_first()),
    })
}

/// Law: when the timestamps carried by the lines are non-decreasing, the
/// state's timestamp is non-decreasing too. Within a single session the lines
/// of a live log satisfy that, so the emitted timestamps are monotone there;
/// across a session start the new program's log may carry an earlier clock
/// reading, and then nothing keeps the state's timestamp from moving back.
pub proof fn lemma_timestamp_monotone(init: LastResetData, steps: Seq<(LineClass, Option<i64>)>)
    requires
        timestamps_monotone_from(init.timestamp_utc_ms as int, steps),
    ensures
        run_steps(init, steps).timestamp_utc_ms >= init.timestamp_utc_ms,
    decreases steps.len(),
{
    if steps.len() > 0 {
        let next = step_spec(init, steps[0].0, steps[0].1);
        match steps[0].1 {
            Some(t) => if steps[0].0 is Other {
                lemma_timestamps_monotone_weaken(
                    init.timestamp_utc_ms as int,
                    t as int,
                    steps.drop_first(),
                );
            },
            None => (),
        }
        lemma_timestamp_monotone(next, steps.drop_first());
    }
}

/// Monotonicity from a later base implies it from any earlier one.
proof fn lemma_timestamps_monotone_weaken(t0: int, t1: int, steps: Seq<(LineClass, Option<i64>)>)
    requires
        t0 <= t1,
        timestamps_monotone_from(t1, steps),
    ensures
        timestamps_monotone_from(t0, steps),
    decreases steps.len(),
{
    if steps.len() > 0 && steps[0].1 is None {
        lemma_timestamps_monotone_weaken(t0, t1, steps.drop_first());
    }
}

} // verus!
