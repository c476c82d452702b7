use swiss_iperf::report::StatusReport;
use swiss_iperf::transfer::{IntervalLog, Receiver, Sender, TCP_BLOCKSIZE};

fn line(r: &Option<StatusReport>) -> Option<(usize, String, String, Option<u32>)> {
    r.as_ref().map(|s| (s.id, s.transfer.clone(), s.bandwidth.clone(), s.retransmits))
}

#[test]
fn block_size_is_128_kib() {
    assert_eq!(TCP_BLOCKSIZE, 131072);
}

#[test]
fn new_log_is_all_zero() {
    let log = IntervalLog::new(4);
    assert_eq!(log.len(), 4);
    for i in 0..4 {
        assert_eq!(log.get(i), 0);
    }
    assert_eq!(log.total(), 0);
}

#[test]
fn empty_log_totals_zero() {
    let log = IntervalLog::new(0);
    assert_eq!(log.len(), 0);
    assert_eq!(log.total(), 0);
}

#[test]
fn add_counts_in_one_interval_only() {
    let mut log = IntervalLog::new(3);
    log.add(1, 100);
    log.add(1, 23);
    log.add(2, 7);
    assert_eq!(log.get(0), 0);
    assert_eq!(log.get(1), 123);
    assert_eq!(log.get(2), 7);
    assert_eq!(log.total(), 130);
}

#[test]
fn add_if_present_drops_counts_beyond_the_log() {
    let mut log = IntervalLog::new(2);
    log.add_if_present(0, 5);
    log.add_if_present(2, 1000);
    log.add_if_present(7, 1000);
    assert_eq!(log.get(0), 5);
    assert_eq!(log.get(1), 0);
    assert_eq!(log.total(), 5);
}

#[test]
fn total_is_every_byte_recorded_in_range() {
    // the law: the total is the sum of the records that fall into the log
    let events: [(usize, usize); 6] = [(0, 10), (3, 99), (1, 20), (1, 5), (2, 1), (10, 1)];
    let mut log = IntervalLog::new(3);
    let mut expected = 0;
    for (i, n) in events {
        log.add_if_present(i, n);
        if i < 3 {
            expected += n;
        }
    }
    assert_eq!(log.total(), expected);
    assert_eq!(log.total(), 36);
}

#[test]
fn sender_starts_idle() {
    let s = Sender::new(false, 3);
    assert_eq!(s.time, 3);
    assert_eq!(s.last_interval, 0);
    assert_eq!(s.total_retransmits, 0);
    assert_eq!(s.written.len(), 3);
    assert!(!s.needs_report(0));
    assert!(s.needs_report(1));
}

#[test]
fn sender_finishes_when_time_is_up() {
    let s = Sender::new(true, 2);
    assert!(!s.finished(0));
    assert!(!s.finished(1));
    assert!(s.finished(2));
    assert!(s.finished(9));
}

#[test]
fn sender_reports_each_second_with_retransmit_deltas() {
    let mut s = Sender::new(false, 3);
    s.sent(0, 600);
    s.sent(0, 300);
    assert!(s.needs_report(1));
    let r = s.report(1, 4);
    assert_eq!(line(&r), Some((1, "900 B".to_string(), "7.2 KB".to_string(), Some(4))));
    assert!(!s.needs_report(1));
    s.sent(1, 50);
    let r = s.report(2, 10);
    assert_eq!(line(&r), Some((2, "50 B".to_string(), "400 B".to_string(), Some(6))));
    assert_eq!(s.total_retransmits, 10);
    let sum = s.summary(3);
    assert_eq!(sum.bytes_written, 950);
    assert_eq!(sum.time, 3);
    assert_eq!(sum.retransmits, Some(10));
}

#[test]
fn sender_in_json_mode_prints_no_progress() {
    let mut s = Sender::new(true, 2);
    s.sent(0, 1);
    let r = s.report(1, 3);
    assert!(r.is_none());
    assert_eq!(s.last_interval, 1);
    assert_eq!(s.total_retransmits, 3);
}

#[test]
fn receiver_stops_on_end_of_stream() {
    let mut r = Receiver::new(false, 2);
    assert!(r.received(0, 10));
    assert!(r.received(1, 20));
    assert!(r.received(5, 1000));
    assert!(!r.received(1, 0));
    let sum = r.summary(2);
    assert_eq!(sum.bytes_written, 30);
    assert_eq!(sum.time, 2);
    assert_eq!(sum.retransmits, None);
}

#[test]
fn receiver_reports_the_second_that_ended() {
    let mut r = Receiver::new(false, 2);
    assert!(!r.needs_report(0));
    r.received(0, 125);
    assert!(r.needs_report(1));
    let rep = r.report(1);
    assert_eq!(line(&rep), Some((1, "125 B".to_string(), "1.0 KB".to_string(), None)));
    assert_eq!(r.before, 1);
    assert!(!r.needs_report(1));
}
