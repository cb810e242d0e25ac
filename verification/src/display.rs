use vstd::prelude::*;

use crate::models::{Record, RecordView, SessionStatus, StatusView};
use crate::text::{i64_dec, int_text};
use crate::time::Timestamp;

verus! {

/// How far from the epoch, in seconds, an instant may lie and still be
/// rendered as a calendar date-time; about 253,000 years, comfortably inside
/// chrono's documented range of about 262,000.
pub const DISPLAY_SECS_BOUND: i64 = 8_000_000_000_000;

/// The instant can be rendered as a calendar date-time.
pub open spec fn displayable(t: Timestamp) -> bool {
    -DISPLAY_SECS_BOUND <= t.secs <= DISPLAY_SECS_BOUND
}

/// The calendar rendering chrono gives an instant, a function of the seconds
/// and nanoseconds alone.
pub uninterp spec fn timestamp_text(secs: int, nanos: int) -> Seq<char>;

/// Relies on chrono's `DateTime::from_timestamp` and the `Display` of
/// `NaiveDateTime`: the calendar rendering of the instant, depending on its
/// value alone. Within about 262,000 years of the epoch the conversion is
/// documented to succeed, and the bound required here keeps well inside that.
#[verifier::external_body]
fn timestamp_str(secs: i64, nanos: u32) -> (r: String)
    requires
        -DISPLAY_SECS_BOUND <= secs <= DISPLAY_SECS_BOUND,
        nanos < 1_000_000_000,
    ensures
        r@ == timestamp_text(secs as int, nanos as int),
{
    chrono::DateTime::from_timestamp(secs, nanos).unwrap().naive_utc().to_string()
}

/// The calendar rendering of the instant holding `ms` total milliseconds.
pub open spec fn timestamp_text_at(ms: int) -> Seq<char> {
    timestamp_text(ms / 1000, (ms % 1000) * 1_000_000)
}

/// Renders an instant as a calendar date-time.
pub fn timestamp_display(t: &Timestamp) -> (r: String)
    requires
        t.wf(),
        displayable(*t),
    ensures
        r@ == timestamp_text_at(t@),
{
    proof {
        vstd::arithmetic::div_mod::lemma_fundamental_div_mod_converse(
            t@,
            1000,
            t.secs as int,
            t.millis as int,
        );
    }
    timestamp_str(t.secs, t.millis * 1_000_000)
}

/// The listing line for one record: name, identifier, both instants and the
/// note, with `None` standing in for what an open record does not have yet.
pub open spec fn record_line_text(r: RecordView) -> Seq<char> {
    "Job Name: "@ + r.job_name + " | Job ID: "@ + int_text(r.id) + " | Clock In: "@
        + timestamp_text_at(r.clock_in) + " | Clock Out: "@ + (match r.status {
        StatusView::Open => "None"@,
        StatusView::Closed { clock_out, .. } => timestamp_text_at(clock_out),
    }) + " | Message: "@ + (match r.status {
        StatusView::Open => "None"@,
        StatusView::Closed { message, .. } => message,
    })
}

/// Renders one stored record as its listing line.
pub fn render_record_line(rec: &Record) -> (r: String)
    requires
        rec.wf(),
        displayable(rec.clock_in),
        match rec.status {
            SessionStatus::Closed { clock_out, .. } => displayable(clock_out),
            SessionStatus::Open => true,
        },
    ensures
        r@ == record_line_text(rec@),
{
    let mut s = "Job Name: ".to_owned();
    s.append(rec.job_name.as_str());
    s.append(" | Job ID: ");
    let id = i64_dec(rec.id);
    s.append(id.as_str());
    s.append(" | Clock In: ");
    let t_in = timestamp_display(&rec.clock_in);
    s.append(t_in.as_str());
    s.append(" | Clock Out: ");
    match &rec.status {
        SessionStatus::Open => s.append("None"),
        SessionStatus::Closed { clock_out, .. } => {
            let t_out = timestamp_display(clock_out);
            s.append(t_out.as_str());
        },
    }
    s.append(" | Message: ");
    match &rec.status {
        SessionStatus::Open => s.append("None"),
        SessionStatus::Closed { message, .. } => s.append(message.as_str()),
    }
    s
}

} // verus!
