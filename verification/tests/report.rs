use swiss_iperf::opts::Summary;
use swiss_iperf::report::{status_report, summary_report, SummaryReport};

#[test]
fn status_is_silent_in_json_mode() {
    assert!(status_report(true, 1234, 1, 1, Some(2)).is_none());
    // in JSON mode the interval is not divided by, so zero is accepted
    assert!(status_report(true, 1234, 0, 1, None).is_none());
}

#[test]
fn status_of_small_counts_is_exact() {
    let r = status_report(false, 100, 1, 7, Some(0)).unwrap();
    assert_eq!(r.id, 7);
    assert_eq!(r.transfer, "100 B");
    assert_eq!(r.bandwidth, "800 B");
    assert_eq!(r.retransmits, Some(0));
}

#[test]
fn status_bandwidth_is_bits_per_second() {
    // 1000 bytes in 4 seconds: 8000 / 4 = 2000 bits per second
    let r = status_report(false, 1000, 4, 4, None).unwrap();
    assert_eq!(r.transfer, "1.0 KB");
    assert_eq!(r.bandwidth, "2.0 KB");
    // 3 bytes in 5 seconds: 24 / 5 = 4, rounded down
    let r = status_report(false, 3, 5, 1, None).unwrap();
    assert_eq!(r.bandwidth, "4 B");
}

#[test]
fn status_of_zero_bytes() {
    let r = status_report(false, 0, 1, 1, None).unwrap();
    assert_eq!(r.transfer, "0 B");
    assert_eq!(r.bandwidth, "0 B");
}

#[test]
fn status_uses_the_decimal_units() {
    let r = status_report(false, 1_500_000, 1, 1, None).unwrap();
    assert_eq!(r.transfer, "1.5 MB");
    assert_eq!(r.bandwidth, "12.0 MB");
}

#[test]
fn summary_in_json_mode() {
    let s = Summary { bytes_written: 10, time: 0, retransmits: None };
    assert!(matches!(summary_report(true, &s), SummaryReport::Json));
}

#[test]
fn summary_of_no_time_is_unavailable() {
    let s = Summary { bytes_written: 10, time: 0, retransmits: Some(1) };
    assert!(matches!(summary_report(false, &s), SummaryReport::Unavailable));
}

#[test]
fn summary_as_text() {
    let s = Summary { bytes_written: 500, time: 2, retransmits: Some(3) };
    match summary_report(false, &s) {
        SummaryReport::Text { time, transfer, bandwidth, retransmits } => {
            assert_eq!(time, 2);
            assert_eq!(transfer, "500 B");
            assert_eq!(bandwidth, "2.0 KB");
            assert_eq!(retransmits, Some(3));
        }
        _ => panic!("expected a text summary"),
    }
}
