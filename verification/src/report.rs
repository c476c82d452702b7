use vstd::prelude::*;
use crate::opts::Summary;

verus! {

/// The text that `bytesize::to_string` gives for a byte count: the count
/// scaled to the largest fitting unit, with one decimal, and the unit.
pub uninterp spec fn byte_size_text(bytes: u64, si_prefix: bool) -> Seq<char>;

/// The character of a decimal digit.
pub open spec fn digit_char(d: nat) -> char {
    if d == 0 { '0' }
    else if d == 1 { '1' }
    else if d == 2 { '2' }
    else if d == 3 { '3' }
    else if d == 4 { '4' }
    else if d == 5 { '5' }
    else if d == 6 { '6' }
    else if d == 7 { '7' }
    else if d == 8 { '8' }
    else { '9' }
}

/// A natural number written in decimal, without leading zeros.
pub open spec fn decimal(n: nat) -> Seq<char>
    decreases n,
{
    if n < 10 {
        seq![digit_char(n)]
    } else {
        decimal(n / 10).push(digit_char(n % 10))
    }
}

/// Calls `bytesize::to_string`. Its result is named `byte_size_text`; the
/// source of the version used shows that a count below one unit (1000, or
/// 1024 with `si_prefix`) is written as the decimal count followed by " B".
/// Larger counts go through floating point, which is not stated.
#[verifier::external_body]
fn byte_size(bytes: u64, si_prefix: bool) -> (s: String)
    ensures
        s@ == byte_size_text(bytes, si_prefix),
        bytes < (if si_prefix { 1024u64 } else { 1000u64 }) ==> s@ == decimal(bytes as nat) + " B"@,
{
    bytesize::to_string(bytes, si_prefix)
}

/// The text for a byte count in decimal units, as `bytesize::to_string`
/// writes it: below 1000 the exact count and " B", else the scaled count.
pub open spec fn byte_text(bytes: u64) -> Seq<char> {
    if bytes < 1000 {
        decimal(bytes as nat) + " B"@
    } else {
        byte_size_text(bytes, false)
    }
}

/// The bandwidth, in bits per second, of `bytes` bytes moved in `secs` seconds.
pub open spec fn bandwidth(bytes: nat, secs: nat) -> nat {
    bytes * 8 / secs
}

/// The quotient of a division is the one number whose multiples of the
/// divisor bracket the dividend.
proof fn lemma_quotient_unique(x: int, d: int, q: int)
    requires
        d > 0,
        q * d <= x < (q + 1) * d,
    ensures
        q == x / d,
{
    assert((q + 1) * d == q * d + d) by (nonlinear_arith);
    vstd::arithmetic::div_mod::lemma_fundamental_div_mod_converse(x, d, q, x - q * d);
}

/// The bandwidth is the number of whole bits per second: that many bits in
/// each of the seconds is at most the bits moved, one bit more per second is
/// beyond them.
pub proof fn law_bandwidth_is_bits_per_second(bytes: nat, secs: nat)
    requires
        secs > 0,
    ensures
        bandwidth(bytes, secs) * secs <= bytes * 8,
        bytes * 8 < (bandwidth(bytes, secs) + 1) * secs,
{
    let x = (bytes * 8) as int;
    let d = secs as int;
    let q = x / d;
    let r = x % d;
    vstd::arithmetic::div_mod::lemma_fundamental_div_mod(x, d);
    assert(0 <= r < d);
    assert(q * d <= x < (q + 1) * d) by (nonlinear_arith)
        requires
            x == d * q + r,
            0 <= r < d,
    ;
}

/// One line of progress: what was transferred in one interval.
#[derive(Debug)]
pub struct StatusReport {
    /// the number of the interval (its end, in seconds since the start)
    pub id: usize,
    /// the bytes transferred in the interval, as text
    pub transfer: String,
    /// the bandwidth in the interval, in bits per second, as text
    pub bandwidth: String,
    /// the TCP retransmissions in the interval, where they are known
    pub retransmits: Option<u32>,
}

impl View for StatusReport {
    type V = (usize, Seq<char>, Seq<char>, Option<u32>);

    open spec fn view(&self) -> (usize, Seq<char>, Seq<char>, Option<u32>) {
        (self.id, self.transfer@, self.bandwidth@, self.retransmits)
    }
}

/// The progress line for `bytes_written` bytes in an interval of `interval`
/// seconds: none when the output is JSON.
pub open spec fn status_line(
    json: bool,
    bytes_written: usize,
    interval: u64,
    id: usize,
    retransmits: Option<u32>,
) -> Option<(usize, Seq<char>, Seq<char>, Option<u32>)> {
    if json {
        None
    } else {
        Some((
            id,
            byte_text(bytes_written as u64),
            byte_text(bandwidth(bytes_written as nat, interval as nat) as u64),
            retransmits,
        ))
    }
}

/// The view of an optional progress line.
pub open spec fn status_view(r: Option<StatusReport>) -> Option<(usize, Seq<char>, Seq<char>, Option<u32>)> {
    match r {
        Some(rep) => Some(rep@),
        None => None,
    }
}

/// The progress line for an interval; none when the output is JSON, where
/// only the summary is printed.
pub fn status_report(
    json: bool,
    bytes_written: usize,
    interval: u64,
    id: usize,
    retransmits: Option<u32>,
) -> (r: Option<StatusReport>)
    requires
        !json ==> interval > 0,
        !json ==> bytes_written * 8 <= usize::MAX,
    ensures
        status_view(r) == status_line(json, bytes_written, interval, id, retransmits),
        json ==> r is None,
        !json ==> (r matches Some(rep)
            && rep.id == id
            && rep.retransmits == retransmits
            && rep.transfer@ == byte_text(bytes_written as u64)
            && forall|q: int| q * interval <= bytes_written * 8 < (q + 1) * interval
                ==> rep.bandwidth@ == #[trigger] byte_text(q as u64)),
{
    if json {
        return None;
    }
    let transfer = byte_size(bytes_written as u64, false);
    let bits = (bytes_written * 8) as u64;
    let bandwidth = byte_size(bits / interval, false);
    proof {
        assert forall|q: int| q * interval <= bytes_written * 8 < (q + 1) * interval
            implies bandwidth@ == #[trigger] byte_text(q as u64) by {
            lemma_quotient_unique(bytes_written * 8, interval as int, q);
        }
    }
    Some(StatusReport { id, transfer, bandwidth, retransmits })
}

/// A progress line shows the bytes of its interval and their rate in whole
/// bits per second: the number whose multiples of the interval's length
/// bracket the bits moved. In JSON mode there is no progress line.
pub proof fn law_progress_line_reports_bits_per_second(
    json: bool,
    bytes_written: usize,
    interval: u64,
    id: usize,
    retransmits: Option<u32>,
)
    requires
        interval > 0,
    ensures
        json ==> status_line(json, bytes_written, interval, id, retransmits) is None,
        !json ==> (status_line(json, bytes_written, interval, id, retransmits) matches Some(l)
            && l.0 == id
            && l.1 == byte_text(bytes_written as u64)
            && l.3 == retransmits
            && forall|q: int| q * interval <= bytes_written * 8 < (q + 1) * interval
                ==> l.2 == #[trigger] byte_text(q as u64)),
{
    assert forall|q: int| q * interval <= bytes_written * 8 < (q + 1) * interval
        implies #[trigger] byte_text(q as u64)
            == byte_text(bandwidth(bytes_written as nat, interval as nat) as u64) by {
        lemma_quotient_unique(bytes_written * 8, interval as int, q);
    }
}

/// What to print at the end of a measurement.
#[derive(Debug)]
pub enum SummaryReport {
    /// the summary itself, as JSON
    Json,
    /// the measurement took no whole second: there is nothing to report
    Unavailable,
    /// the totals as text
    Text {
        time: u64,
        transfer: String,
        bandwidth: String,
        retransmits: Option<u32>,
    },
}

/// The final report of a measurement.
pub fn summary_report(json: bool, summary: &Summary) -> (r: SummaryReport)
    requires
        !json && summary.time != 0 ==> summary.bytes_written * 8 <= usize::MAX,
    ensures
        json ==> r is Json,
        !json && summary.time == 0 ==> r is Unavailable,
        !json && summary.time != 0 ==> (r matches SummaryReport::Text { time, transfer, bandwidth: bw, retransmits }
            && time == summary.time
            && transfer@ == byte_text(summary.bytes_written as u64)
            && bw@ == byte_text(bandwidth(summary.bytes_written as nat, summary.time as nat) as u64)
            && retransmits == summary.retransmits),
        !json && summary.time != 0 ==> (r matches SummaryReport::Text { bandwidth: bw, .. }
            && forall|q: int| q * summary.time <= summary.bytes_written * 8 < (q + 1) * summary.time
                ==> bw@ == #[trigger] byte_text(q as u64)),
{
    if json {
        return SummaryReport::Json;
    }
    if summary.time == 0 {
        return SummaryReport::Unavailable;
    }
    let transfer = byte_size(summary.bytes_written as u64, false);
    let bits = (summary.bytes_written * 8) as u64;
    let bandwidth = byte_size(bits / summary.time, false);
    proof {
        assert forall|q: int| q * summary.time <= summary.bytes_written * 8 < (q + 1) * summary.time
            implies bandwidth@ == #[trigger] byte_text(q as u64) by {
            lemma_quotient_unique(summary.bytes_written * 8, summary.time as int, q);
        }
    }
    SummaryReport::Text { time: summary.time, transfer, bandwidth, retransmits: summary.retransmits }
}

} // verus!
