use netwatch::{
    decimal_string, format_duration, summary_line, two_digit_string, ProbeMonitor, RunningStatus,
    Status, FAIL_LABEL, OK_LABEL,
};

const PING_LINE: &str = "12:00:01.123 64 bytes from 8.8.8.8: icmp_seq=1 ttl=56 time=12.3 ms";
const TIMEOUT_LINE: &str = "12:00:02.456 Request timeout for icmp_seq 2";

fn tracker() -> RunningStatus {
    RunningStatus::new().expect("both patterns compile")
}

#[test]
fn ticks_fail_fail_ok_announce_first_and_third() {
    let mut m = ProbeMonitor::new();
    let t1 = m.tick_at(false, "10:00:00");
    let t2 = m.tick_at(false, "10:00:01");
    let t3 = m.tick_at(true, "10:00:02");
    assert_eq!(t1.announcement, Some(format!("\n10:00:00 {}\n", FAIL_LABEL)));
    assert_eq!(t2.announcement, None);
    assert_eq!(t3.announcement, Some(format!("\n10:00:02 {}\n", OK_LABEL)));
    assert_eq!(t1.shown_elapsed, 0);
    assert_eq!(t2.shown_elapsed, 1);
    assert_eq!(t3.shown_elapsed, 0);
    assert_eq!(t2.live_line, format!("\r10:00:01 {} 00:00:01", FAIL_LABEL));
    assert_eq!(t3.live_line, format!("\r10:00:02 {} 00:00:00", OK_LABEL));
}

#[test]
fn repeated_outcome_never_reannounces() {
    let mut m = ProbeMonitor::new();
    let first = m.tick_at(true, "00:00:00");
    assert!(first.announcement.is_some());
    for expected in 1..20i64 {
        let t = m.tick_at(true, "00:00:00");
        assert!(t.announcement.is_none());
        assert_eq!(t.shown_elapsed, expected);
    }
}

#[test]
fn tick_with_clock_announces_first_outcome() {
    let mut m = ProbeMonitor::new();
    let t = m.tick(false);
    assert!(t.announcement.is_some());
    assert_eq!(t.shown_elapsed, 0);
    assert!(t.live_line.ends_with(" 00:00:00"));
    let t = m.tick(false);
    assert!(t.announcement.is_none());
    assert!(t.live_line.ends_with(" 00:00:01"));
}

#[test]
fn durations_render_as_hh_mm_ss() {
    assert_eq!(format_duration(0), "00:00:00");
    assert_eq!(format_duration(1), "00:00:01");
    assert_eq!(format_duration(3661), "01:01:01");
    assert_eq!(format_duration(359999), "99:59:59");
    assert_eq!(format_duration(360000), "100:00:00");
}

#[test]
fn decimal_rendering() {
    assert_eq!(decimal_string(0), "0");
    assert_eq!(decimal_string(1234567890), "1234567890");
    assert_eq!(decimal_string(u64::MAX), u64::MAX.to_string());
    assert_eq!(two_digit_string(7), "07");
    assert_eq!(two_digit_string(42), "42");
    assert_eq!(two_digit_string(123), "123");
}

#[test]
fn ping_reply_line_is_ok() {
    let c = tracker().classify(PING_LINE);
    assert_eq!(c.status, Status::OK);
    assert_eq!(c.since, "12:00:01");
    assert_eq!(c.extra, "12.3 ms");
}

#[test]
fn timeout_line_is_timeout() {
    let c = tracker().classify(TIMEOUT_LINE);
    assert_eq!(c.status, Status::Timeout);
    assert_eq!(c.since, "12:00:02");
    assert_eq!(c.extra, "");
}

#[test]
fn garbage_line_is_unknown_and_echoed() {
    let mut t = tracker();
    let c = t.classify("garbage text");
    assert_eq!(c.status, Status::Unknown);
    assert_eq!(c.since, "now");
    let out = t.register_line("garbage text".to_string());
    assert_eq!(out, format!("{} garbage text\n\rUnknown x 1 since beginning \x1b[K", FAIL_LABEL));
    assert_eq!(t.count, 1);
    let out = t.register_line("garbage text".to_string());
    assert_eq!(out, format!("{} garbage text\n\rUnknown x 2 since beginning \x1b[K", FAIL_LABEL));
    assert_eq!(t.count, 2);
}

#[test]
fn unknown_after_ok_resets_count() {
    let mut t = tracker();
    t.register_line(PING_LINE.to_string());
    t.register_line(PING_LINE.to_string());
    assert_eq!(t.count, 2);
    let out = t.register_line("garbage text".to_string());
    assert_eq!(t.status, Status::Unknown);
    assert_eq!(t.count, 1);
    assert_eq!(t.since, "now");
    assert_eq!(out, format!("{} garbage text\n\n\rUnknown x 1 since now \x1b[K", FAIL_LABEL));
}

#[test]
fn transition_output_for_ping_and_timeout() {
    let mut t = tracker();
    let out = t.register_line(PING_LINE.to_string());
    assert_eq!(out, "\n\r\x1b[32mOK\x1b[0m x 1 since 12:00:01 12.3 ms\x1b[K");
    let out = t.register_line(
        "12:00:03.001 64 bytes from 8.8.8.8: icmp_seq=3 ttl=56 time=9.9 ms".to_string(),
    );
    assert_eq!(out, "\r\x1b[32mOK\x1b[0m x 2 since 12:00:01 9.9 ms\x1b[K");
    let out = t.register_line(TIMEOUT_LINE.to_string());
    assert_eq!(out, "\n\r\x1b[31mERR\x1b[0m x 1 since 12:00:02 \x1b[K");
    assert_eq!(t.status, Status::Timeout);
}

#[test]
fn ping_pattern_wins_over_timeout_pattern() {
    let line = "12:00:05.000 64 bytes from 1.2.3.4: icmp_seq=5 ttl=1 time=12:00:06.000 Request timeout for icmp_seq 9";
    let c = tracker().classify(line);
    assert_eq!(c.status, Status::OK);
    assert_eq!(c.since, "12:00:05");
}

#[test]
fn new_tracker_starts_unknown() {
    let t = tracker();
    assert_eq!(t.status, Status::Unknown);
    assert_eq!(t.since, "beginning");
    assert_eq!(t.count, 0);
}

#[test]
fn status_text() {
    assert_eq!(Status::OK.text(), "\x1b[32mOK\x1b[0m");
    assert_eq!(Status::Timeout.text(), "\x1b[31mERR\x1b[0m");
    assert_eq!(Status::Unknown.text(), "Unknown");
}

#[test]
fn summary_reports_line_count() {
    assert_eq!(summary_line(0), "\nDone, processed 0 lines");
    assert_eq!(summary_line(3), "\nDone, processed 3 lines");
}
