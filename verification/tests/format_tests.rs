use clock::display::render_record_line;
use clock::models::{Record, SessionStatus};
use clock::text::{format_duration, i64_dec, u64_dec};
use clock::time;
use clock::time::{Duration, Timestamp};
use clock::watch::{watch_tick, WatchStep};

#[test]
fn duration_renders_hours_minutes_seconds_millis() {
    let d = Duration { secs: 3661, millis: 500 };
    assert_eq!(format_duration(&d), "01:01:01.500");
}

#[test]
fn zero_duration_renders_as_zeros() {
    let d = Duration { secs: 0, millis: 0 };
    assert_eq!(format_duration(&d), "00:00:00.000");
}

#[test]
fn long_durations_widen_the_hours() {
    let d = Duration { secs: 360_000 + 59, millis: 7 };
    assert_eq!(format_duration(&d), "100:00:59.007");
}

#[test]
fn duration_since_subtracts_with_carry() {
    let start = Timestamp::new(900, 750);
    let end = Timestamp::new(1_000, 250);
    let d = end.duration_since(&start);
    assert_eq!(d, Duration { secs: 99, millis: 500 });
    assert_eq!(format_duration(&d), "00:01:39.500");
}

#[test]
fn decimal_renderings() {
    assert_eq!(u64_dec(0), "0");
    assert_eq!(u64_dec(90_061), "90061");
    assert_eq!(i64_dec(-42), "-42");
    assert_eq!(i64_dec(7), "7");
    assert_eq!(i64_dec(i64::MIN), "-9223372036854775808");
}

#[test]
fn watch_tick_renders_the_session_line() {
    let rec = Record {
        id: 1,
        job_name: "writing".to_string(),
        clock_in: Timestamp::new(1_000, 0),
        status: SessionStatus::Open,
    };
    let now = Timestamp::new(1_005, 0);
    match watch_tick(&Some(rec), &now) {
        WatchStep::Refresh { line } => {
            assert_eq!(line, "Session <<WRITING>> active time: 00:00:05.000");
        }
        other => panic!("expected a refresh, got {:?}", other),
    }
}

#[test]
fn watch_tick_stops_when_nothing_is_active() {
    let now = Timestamp::new(1_005, 0);
    match watch_tick(&None, &now) {
        WatchStep::Stop { line } => assert_eq!(line, "No active session."),
        other => panic!("expected the loop to stop, got {:?}", other),
    }
}

#[test]
fn open_record_lists_with_none_fields() {
    let rec = Record {
        id: 7,
        job_name: "foo".to_string(),
        clock_in: Timestamp::new(1_431_648_000, 0),
        status: SessionStatus::Open,
    };
    assert_eq!(
        render_record_line(&rec),
        "Job Name: foo | Job ID: 7 | Clock In: 2015-05-15 00:00:00 | Clock Out: None | Message: None"
    );
}

#[test]
fn closed_record_lists_both_instants_and_the_note() {
    let rec = Record {
        id: 12,
        job_name: "bar".to_string(),
        clock_in: Timestamp::new(1_431_648_000, 0),
        status: SessionStatus::Closed {
            clock_out: Timestamp::new(1_431_651_600, 500),
            message: "lunch".to_string(),
        },
    };
    assert_eq!(
        render_record_line(&rec),
        "Job Name: bar | Job ID: 12 | Clock In: 2015-05-15 00:00:00 | Clock Out: 2015-05-15 01:00:00.500 | Message: lunch"
    );
}

#[test]
fn now_is_well_formed() {
    let t = time::now();
    assert!(t.millis < 1000);
}
