use vstd::prelude::*;
use crate::opts::Summary;
use crate::report::{status_report, status_view, status_line, StatusReport};

verus! {

/// The size of the blocks that the sender writes, and of the buffer that
/// the receiver reads into.
pub const TCP_BLOCKSIZE: usize = 128 * 1024;

/// The sum of a sequence of byte counts.
pub open spec fn sum_of(s: Seq<usize>) -> int
    decreases s.len(),
{
    if s.len() == 0 {
        0
    } else {
        sum_of(s.drop_last()) + s.last()
    }
}

/// `n` more bytes counted in interval `i`; a count for an interval outside
/// the measurement is dropped.
pub open spec fn record(s: Seq<usize>, i: int, n: nat) -> Seq<usize> {
    if 0 <= i < s.len() {
        s.update(i, (s[i] + n) as usize)
    } else {
        s
    }
}

/// The counts after a series of `(interval, bytes)` records, in order.
pub open spec fn replay(s: Seq<usize>, events: Seq<(usize, usize)>) -> Seq<usize>
    decreases events.len(),
{
    if events.len() == 0 {
        s
    } else {
        record(replay(s, events.drop_last()), events.last().0 as int, events.last().1 as nat)
    }
}

/// The bytes of the records that fall into one of the first `len` intervals.
pub open spec fn bytes_in_range(len: nat, events: Seq<(usize, usize)>) -> int
    decreases events.len(),
{
    if events.len() == 0 {
        0
    } else {
        bytes_in_range(len, events.drop_last()) + if events.last().0 < len {
            events.last().1 as int
        } else {
            0
        }
    }
}

/// The bytes of all the records.
pub open spec fn bytes_of(events: Seq<(usize, usize)>) -> int
    decreases events.len(),
{
    if events.len() == 0 {
        0
    } else {
        bytes_of(events.drop_last()) + events.last().1
    }
}

/// Replacing one count changes the sum by the difference.
pub proof fn lemma_sum_update(s: Seq<usize>, i: int, v: usize)
    requires
        0 <= i < s.len(),
    ensures
        sum_of(s.update(i, v)) == sum_of(s) - s[i] + v,
    decreases s.len(),
{
    let t = s.update(i, v);
    if i == s.len() - 1 {
        assert(t.drop_last() =~= s.drop_last());
    } else {
        assert(t.drop_last() =~= s.drop_last().update(i, v));
        lemma_sum_update(s.drop_last(), i, v);
    }
}

/// No single count exceeds the sum.
pub proof fn lemma_count_le_sum(s: Seq<usize>, i: int)
    requires
        0 <= i < s.len(),
    ensures
        s[i] <= sum_of(s),
        0 <= sum_of(s),
    decreases s.len(),
{
    lemma_sum_nonneg(s.drop_last());
    if i < s.len() - 1 {
        lemma_count_le_sum(s.drop_last(), i);
    }
}

/// A sum of counts is never negative.
pub proof fn lemma_sum_nonneg(s: Seq<usize>)
    ensures
        0 <= sum_of(s),
    decreases s.len(),
{
    if s.len() > 0 {
        lemma_sum_nonneg(s.drop_last());
    }
}

/// A prefix sums to no more than the whole, and one more element adds it.
proof fn lemma_prefix_sum(s: Seq<usize>, k: int)
    requires
        0 <= k < s.len(),
    ensures
        sum_of(s.take(k + 1)) == sum_of(s.take(k)) + s[k],
        sum_of(s.take(k + 1)) <= sum_of(s),
    decreases s.len() - k,
{
    assert(s.take(k + 1).drop_last() =~= s.take(k));
    if k + 1 == s.len() {
        assert(s.take(k + 1) =~= s);
    } else {
        lemma_prefix_sum(s, k + 1);
        lemma_sum_nonneg(s.take(k + 1));
    }
}

/// Counts that are all zero sum to zero.
proof fn lemma_sum_zeros(n: nat)
    ensures
        sum_of(Seq::new(n, |i: int| 0usize)) == 0,
    decreases n,
{
    if n > 0 {
        assert(Seq::new(n, |i: int| 0usize).drop_last() =~= Seq::new((n - 1) as nat, |i: int| 0usize));
        lemma_sum_zeros((n - 1) as nat);
    }
}

/// Recording `n` bytes in an interval of the measurement raises the total
/// by exactly `n`; recording them outside leaves everything as it was.
pub proof fn law_record_adds_bytes(s: Seq<usize>, i: int, n: nat)
    requires
        sum_of(s) + n <= usize::MAX,
    ensures
        record(s, i, n).len() == s.len(),
        sum_of(record(s, i, n)) == sum_of(s) + if 0 <= i < s.len() { n as int } else { 0 },
{
    if 0 <= i < s.len() {
        lemma_count_le_sum(s, i);
        lemma_sum_update(s, i, (s[i] + n) as usize);
    }
}

/// Bytes are credited to the interval they were recorded in and to no
/// other: that interval's count grows by `n`, every other count stays, and
/// a record for an interval outside the measurement changes nothing.
pub proof fn law_record_credits_its_own_interval(s: Seq<usize>, i: int, n: nat)
    requires
        0 <= i < s.len() ==> s[i] + n <= usize::MAX,
    ensures
        record(s, i, n).len() == s.len(),
        0 <= i < s.len() ==> record(s, i, n)[i] == s[i] + n,
        forall|j: int| 0 <= j < s.len() && j != i ==> #[trigger] record(s, i, n)[j] == s[j],
        !(0 <= i < s.len()) ==> record(s, i, n) == s,
{
}

/// Every byte recorded in an interval of the measurement ends up in the
/// summary's total, and no other: after any series of records, the counts
/// sum to what they summed to before plus the bytes recorded in range.
pub proof fn law_total_is_bytes_recorded(s: Seq<usize>, events: Seq<(usize, usize)>)
    requires
        sum_of(s) + bytes_of(events) <= usize::MAX,
    ensures
        replay(s, events).len() == s.len(),
        sum_of(replay(s, events)) == sum_of(s) + bytes_in_range(s.len(), events),
        bytes_in_range(s.len(), events) <= bytes_of(events),
    decreases events.len(),
{
    if events.len() > 0 {
        let prev = events.drop_last();
        let e = events.last();
        assert(0 <= e.1);
        law_total_is_bytes_recorded(s, prev);
        law_record_adds_bytes(replay(s, prev), e.0 as int, e.1 as nat);
    }
}

/// The retransmissions that the progress lines report, one line per
/// reading of the connection's counter: each line reports the growth of the
/// counter since the reading before, the first one since `start`.
pub open spec fn retransmits_reported(start: int, readings: Seq<u32>) -> int
    decreases readings.len(),
{
    if readings.len() == 0 {
        0
    } else {
        let before = if readings.len() == 1 { start } else { readings[readings.len() - 2] as int };
        retransmits_reported(start, readings.drop_last()) + readings.last() - before
    }
}

/// The retransmissions reported line by line add up to the growth of the
/// counter since the start; a sender starts at zero, so they add up to the
/// last reading, which is what its summary reports.
pub proof fn law_retransmits_add_up(start: int, readings: Seq<u32>)
    requires
        readings.len() > 0,
    ensures
        retransmits_reported(start, readings) == readings.last() - start,
    decreases readings.len(),
{
    let prev = readings.drop_last();
    let before = if readings.len() == 1 { start } else { readings[readings.len() - 2] as int };
    assert(retransmits_reported(start, readings)
        == retransmits_reported(start, prev) + readings.last() - before);
    if readings.len() > 1 {
        law_retransmits_add_up(start, prev);
        assert(prev.last() == readings[readings.len() - 2]);
    } else {
        assert(retransmits_reported(start, prev) == 0);
    }
}

/// The bytes transferred in each one-second interval of a measurement.
pub struct IntervalLog {
    written: Vec<usize>,
}

impl View for IntervalLog {
    type V = Seq<usize>;

    closed spec fn view(&self) -> Seq<usize> {
        self.written@
    }
}

impl IntervalLog {
    /// The counts sum to a number that fits in a `usize`.
    pub open spec fn wf(&self) -> bool {
        sum_of(self@) <= usize::MAX
    }

    /// A log of `intervals` intervals, all at zero.
    pub fn new(intervals: usize) -> (log: IntervalLog)
        ensures
            log@ == Seq::new(intervals as nat, |i: int| 0usize),
            sum_of(log@) == 0,
            log.wf(),
    {
        let mut written: Vec<usize> = Vec::new();
        let mut k: usize = 0;
        while k < intervals
            invariant
                k <= intervals,
                written@ == Seq::new(k as nat, |i: int| 0usize),
            decreases intervals - k,
        {
            written.push(0);
            k = k + 1;
            assert(written@ =~= Seq::new(k as nat, |i: int| 0usize));
        }
        proof {
            lemma_sum_zeros(intervals as nat);
        }
        IntervalLog { written }
    }

    /// The number of intervals.
    pub fn len(&self) -> (n: usize)
        ensures
            n == self@.len(),
    {
        self.written.len()
    }

    /// The bytes counted in interval `i`.
    pub fn get(&self, i: usize) -> (b: usize)
        requires
            i < self@.len(),
        ensures
            b == self@[i as int],
    {
        self.written[i]
    }

    /// Counts `n` more bytes in interval `i`, which must be one of the log's.
    pub fn add(&mut self, i: usize, n: usize)
        requires
            old(self).wf(),
            i < old(self)@.len(),
            sum_of(old(self)@) + n <= usize::MAX,
        ensures
            final(self).wf(),
            final(self)@ == record(old(self)@, i as int, n as nat),
            sum_of(final(self)@) == sum_of(old(self)@) + n,
            final(self)@.len() == old(self)@.len(),
            final(self)@[i as int] == old(self)@[i as int] + n,
            forall|j: int| 0 <= j < old(self)@.len() && j != i ==> #[trigger] final(self)@[j] == old(self)@[j],
    {
        proof {
            law_record_adds_bytes(self@, i as int, n as nat);
            lemma_count_le_sum(self@, i as int);
        }
        let b = self.written[i];
        self.written.set(i, b + n);
        assert(self@ =~= record(old(self)@, i as int, n as nat));
    }

    /// Counts `n` more bytes in interval `i` if the log has that interval,
    /// and drops them otherwise.
    pub fn add_if_present(&mut self, i: usize, n: usize)
        requires
            old(self).wf(),
            i < old(self)@.len() ==> sum_of(old(self)@) + n <= usize::MAX,
        ensures
            final(self).wf(),
            final(self)@ == record(old(self)@, i as int, n as nat),
            final(self)@.len() == old(self)@.len(),
            i < old(self)@.len() ==> final(self)@[i as int] == old(self)@[i as int] + n,
            forall|j: int| 0 <= j < old(self)@.len() && j != i ==> #[trigger] final(self)@[j] == old(self)@[j],
    {
        if i < self.written.len() {
            self.add(i, n);
        }
    }

    /// The bytes counted over all intervals.
    pub fn total(&self) -> (t: usize)
        requires
            self.wf(),
        ensures
            t == sum_of(self@),
    {
        let mut t: usize = 0;
        let mut k: usize = 0;
        while k < self.written.len()
            invariant
                self.wf(),
                k <= self@.len(),
                t == sum_of(self@.take(k as int)),
                self@ == self.written@,
            decreases self@.len() - k,
        {
            proof {
                lemma_prefix_sum(self@, k as int);
            }
            t = t + self.written[k];
            k = k + 1;
        }
        assert(self@.take(k as int) =~= self@);
        t
    }
}

/// The sending side of a measurement: it writes for `time` seconds and
/// reports, at the turn of each second, what it wrote in the second that
/// ended and how many segments TCP retransmitted meanwhile.
pub struct Sender {
    /// print JSON in place of progress lines
    pub json: bool,
    /// seconds to send for
    pub time: u64,
    /// bytes written in each second
    pub written: IntervalLog,
    /// the second whose turn was reported last
    pub last_interval: usize,
    /// the retransmission counter of the connection when it was read last
    pub total_retransmits: u32,
}

impl Sender {
    /// One interval per second of the measurement, and counts that fit.
    pub open spec fn wf(&self) -> bool {
        &&& self.written.wf()
        &&& self.written@.len() == self.time
    }

    /// A sender for `time` seconds, before anything was sent.
    pub fn new(json: bool, time: u64) -> (s: Sender)
        requires
            time <= usize::MAX,
        ensures
            s.wf(),
            s.json == json,
            s.time == time,
            s.written@ == Seq::new(time as nat, |i: int| 0usize),
            sum_of(s.written@) == 0,
            s.last_interval == 0,
            s.total_retransmits == 0,
    {
        Sender {
            json,
            time,
            written: IntervalLog::new(time as usize),
            last_interval: 0,
            total_retransmits: 0,
        }
    }

    /// Whether the clock, now in second `interval`, has turned to a second
    /// not yet reported.
    pub fn needs_report(&self, interval: usize) -> (r: bool)
        ensures
            r == (interval != self.last_interval),
    {
        self.last_interval != interval
    }

    /// Closes the second that ended when the clock turned to `interval`,
    /// given the connection's retransmission counter read just now: the
    /// retransmissions since the last report are the counter's growth.
    pub fn report(&mut self, interval: usize, total_retrans: u32) -> (r: Option<StatusReport>)
        requires
            old(self).wf(),
            1 <= interval <= old(self).written@.len(),
            old(self).total_retransmits <= total_retrans,
            !old(self).json ==> old(self).written@[interval - 1] * 8 <= usize::MAX,
        ensures
            final(self).wf(),
            final(self).json == old(self).json,
            final(self).time == old(self).time,
            final(self).written@ == old(self).written@,
            final(self).last_interval == interval,
            final(self).total_retransmits == total_retrans,
            status_view(r) == status_line(
                old(self).json,
                old(self).written@[interval - 1],
                1,
                interval,
                Some((total_retrans - old(self).total_retransmits) as u32),
            ),
    {
        let current_retransmits = total_retrans - self.total_retransmits;
        self.total_retransmits = total_retrans;
        let bytes = self.written.get(interval - 1);
        let r = status_report(self.json, bytes, 1, interval, Some(current_retransmits));
        self.last_interval = interval;
        r
    }

    /// Whether the time of the measurement is up, `elapsed` seconds after
    /// the start.
    pub fn finished(&self, elapsed: u64) -> (r: bool)
        ensures
            r == (elapsed >= self.time),
    {
        elapsed >= self.time
    }

    /// Counts `n` bytes written while the clock was in second `interval`.
    pub fn sent(&mut self, interval: usize, n: usize)
        requires
            old(self).wf(),
            interval < old(self).written@.len(),
            sum_of(old(self).written@) + n <= usize::MAX,
        ensures
            final(self).wf(),
            final(self).json == old(self).json,
            final(self).time == old(self).time,
            final(self).last_interval == old(self).last_interval,
            final(self).total_retransmits == old(self).total_retransmits,
            final(self).written@ == record(old(self).written@, interval as int, n as nat),
            sum_of(final(self).written@) == sum_of(old(self).written@) + n,
            final(self).written@.len() == old(self).written@.len(),
            final(self).written@[interval as int] == old(self).written@[interval as int] + n,
            forall|j: int| 0 <= j < old(self).written@.len() && j != interval
                ==> #[trigger] final(self).written@[j] == old(self).written@[j],
    {
        self.written.add(interval, n);
    }

    /// The summary of a measurement that took `elapsed` seconds.
    pub fn summary(&self, elapsed: u64) -> (s: Summary)
        requires
            self.wf(),
        ensures
            s.bytes_written == sum_of(self.written@),
            s.time == elapsed,
            s.retransmits == Some(self.total_retransmits),
    {
        Summary {
            bytes_written: self.written.total(),
            time: elapsed,
            retransmits: Some(self.total_retransmits),
        }
    }
}

/// The receiving side of a measurement: it reads until the sender closes
/// the connection and reports, at the turn of each second, what it read in
/// the second that ended.
pub struct Receiver {
    /// print JSON in place of progress lines
    pub json: bool,
    /// bytes read in each second of the expected time
    pub written: IntervalLog,
    /// the second whose turn was reported last
    pub before: usize,
}

impl Receiver {
    /// Counts that fit.
    pub open spec fn wf(&self) -> bool {
        self.written.wf()
    }

    /// A receiver for a measurement of `time` seconds, before anything was read.
    pub fn new(json: bool, time: u64) -> (r: Receiver)
        requires
            time <= usize::MAX,
        ensures
            r.wf(),
            r.json == json,
            r.written@ == Seq::new(time as nat, |i: int| 0usize),
            sum_of(r.written@) == 0,
            r.before == 0,
    {
        Receiver { json, written: IntervalLog::new(time as usize), before: 0 }
    }

    /// Whether the clock, now in second `interval`, has turned to a second
    /// not yet reported.
    pub fn needs_report(&self, interval: usize) -> (r: bool)
        ensures
            r == (interval != self.before),
    {
        self.before != interval
    }

    /// Closes the second that ended when the clock turned to `interval`.
    pub fn report(&mut self, interval: usize) -> (r: Option<StatusReport>)
        requires
            old(self).wf(),
            1 <= interval <= old(self).written@.len(),
            !old(self).json ==> old(self).written@[interval - 1] * 8 <= usize::MAX,
        ensures
            final(self).wf(),
            final(self).json == old(self).json,
            final(self).written@ == old(self).written@,
            final(self).before == interval,
            status_view(r) == status_line(old(self).json, old(self).written@[interval - 1], 1, interval, None),
    {
        let bytes = self.written.get(interval - 1);
        let r = status_report(self.json, bytes, 1, interval, None);
        self.before = interval;
        r
    }

    /// Takes in the result of a read made while the clock was in second
    /// `interval`: zero bytes mean that the sender has finished, and the
    /// answer is that reading stops; other counts are recorded, or dropped
    /// when the second lies beyond the expected time.
    pub fn received(&mut self, interval: usize, n: usize) -> (more: bool)
        requires
            old(self).wf(),
            interval < old(self).written@.len() ==> sum_of(old(self).written@) + n <= usize::MAX,
        ensures
            more == (n != 0),
            final(self).wf(),
            final(self).json == old(self).json,
            final(self).before == old(self).before,
            final(self).written@ == record(old(self).written@, interval as int, n as nat),
            final(self).written@.len() == old(self).written@.len(),
            interval < old(self).written@.len() ==> final(self).written@[interval as int]
                == old(self).written@[interval as int] + n,
            forall|j: int| 0 <= j < old(self).written@.len() && j != interval
                ==> #[trigger] final(self).written@[j] == old(self).written@[j],
    {
        if n == 0 {
            assert(self.written@ =~= record(old(self).written@, interval as int, 0));
            return false;
        }
        self.written.add_if_present(interval, n);
        true
    }

    /// The summary of a measurement that took `elapsed` seconds; the
    /// receiving side does not know the retransmissions.
    pub fn summary(&self, elapsed: u64) -> (s: Summary)
        requires
            self.wf(),
        ensures
            s.bytes_written == sum_of(self.written@),
            s.time == elapsed,
            s.retransmits is None,
    {
        Summary { bytes_written: self.written.total(), time: elapsed, retransmits: None }
    }
}

} // verus!
