use vstd::prelude::*;

use crate::models::Record;
use crate::text::{duration_text, format_duration};
use crate::time::{Duration, Timestamp};

verus! {

/// The uppercase mapping `str::to_uppercase` computes, a function of the
/// characters alone.
pub uninterp spec fn upper_of(s: Seq<char>) -> Seq<char>;

/// Relies on str::to_uppercase: the Unicode uppercase rendering of the
/// characters, depending on them alone.
#[verifier::external_body]
fn to_upper(s: &str) -> (r: String)
    ensures
        r@ == upper_of(s@),
{
    s.to_uppercase()
}

/// The one line a watch tick shows for a running session.
pub open spec fn watch_line_text(job_name: Seq<char>, elapsed_ms: int) -> Seq<char> {
    "Session <<"@ + upper_of(job_name) + ">> active time: "@ + duration_text(elapsed_ms)
}

/// The terminal line shown when the watched session has ended.
pub open spec fn no_active_text() -> Seq<char> {
    "No active session."@
}

/// What one tick of the watch loop decides: draw a line and poll again, or
/// draw a final line and stop.
#[derive(Debug, PartialEq, Eq)]
pub enum WatchStep {
    Refresh { line: String },
    Stop { line: String },
}

/// The session line: the job name uppercased, then the elapsed span.
pub fn render_watch_line(job_name: &str, elapsed: &Duration) -> (r: String)
    requires
        elapsed.wf(),
    ensures
        r@ == watch_line_text(job_name@, elapsed@),
{
    let mut s = "Session <<".to_owned();
    let upper = to_upper(job_name);
    s.append(upper.as_str());
    s.append(">> active time: ");
    let d = format_duration(elapsed);
    s.append(d.as_str());
    s
}

/// One tick of the watch loop, fed the freshly resolved active session and
/// the current instant: while a session is active the tick renders its line
/// and the loop polls on; the instant resolution finds none, the tick renders
/// the final line and the loop stops.
pub fn watch_tick(active: &Option<Record>, now: &Timestamp) -> (r: WatchStep)
    requires
        now.wf(),
        active matches Some(rec) ==> rec.clock_in.wf() && rec.clock_in@ <= now@,
    ensures
        match active {
            Some(rec) => r matches WatchStep::Refresh { line } && line@ == watch_line_text(
                rec@.job_name,
                now@ - rec@.clock_in,
            ),
            None => r matches WatchStep::Stop { line } && line@ == no_active_text(),
        },
{
    match active {
        Some(rec) => {
            let elapsed = now.duration_since(&rec.clock_in);
            WatchStep::Refresh { line: render_watch_line(rec.job_name.as_str(), &elapsed) }
        },
        None => WatchStep::Stop { line: "No active session.".to_owned() },
    }
}

} // verus!
