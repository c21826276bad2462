//! Reassembly of partial bulk-capacitance reports into one full-array sample.
use vstd::prelude::*;

use crate::N_PINS;

verus! {

/// Additive offset from raw sensor units to calibrated capacitance.
pub const CAP_OFFSET: i32 = -120;

/// Calibrated capacitance of one raw sensor reading.
pub open spec fn calibrated(raw: u16) -> i32 {
    (raw as int + CAP_OFFSET as int) as i32
}

/// Calibrated capacitance of every channel of a raw buffer.
pub open spec fn calibrate(raw: Seq<u16>) -> Seq<i32> {
    raw.map_values(|r: u16| calibrated(r))
}

/// `buf` with `vals` written over it from index `start` on.
pub open spec fn write_range(buf: Seq<u16>, start: int, vals: Seq<u16>) -> Seq<u16> {
    Seq::new(buf.len(), |i: int| if start <= i < start + vals.len() { vals[i - start] } else { buf[i] })
}

/// `cov` with the indices `start .. start + len` marked as written.
pub open spec fn cover_range(cov: Seq<bool>, start: int, len: int) -> Seq<bool> {
    Seq::new(cov.len(), |i: int| cov[i] || start <= i < start + len)
}

/// Every channel has been written.
pub open spec fn all_covered(cov: Seq<bool>) -> bool {
    forall|i: int| 0 <= i < N_PINS ==> #[trigger] cov[i]
}

/// The abstract state of a collector: the raw buffer, and which of its indices
/// were written since the last completed sample.
pub struct CollectorModel {
    pub values: Seq<u16>,
    pub covered: Seq<bool>,
}

/// A write of `vals` at `start` stays within the array.
pub open spec fn write_in_range(start: int, vals: Seq<u16>) -> bool {
    0 <= start && start + vals.len() <= N_PINS
}

/// The effect of one in-range write: the new state, and the completed sample
/// if the write made the coverage of this cycle complete.
pub open spec fn collector_step(m: CollectorModel, start: int, vals: Seq<u16>) -> (CollectorModel, Option<Seq<i32>>) {
    let values = write_range(m.values, start, vals);
    let covered = cover_range(m.covered, start, vals.len() as int);
    if all_covered(covered) {
        (CollectorModel { values, covered: Seq::new(N_PINS as nat, |i: int| false) }, Some(calibrate(values)))
    } else {
        (CollectorModel { values, covered }, None)
    }
}

/// A write that does not fit the 128-channel array.
#[derive(Debug, Clone, Copy, PartialEq, Eq, Structural)]
pub enum CollectorError {
    OutOfRange,
}

/// Accumulates partial bulk-capacitance reports until every channel has been
/// written, then yields the calibrated full-array sample.
pub struct BulkMeasurementCollector {
    values: Vec<u16>,
    covered: Vec<bool>,
}

impl View for BulkMeasurementCollector {
    type V = CollectorModel;

    closed spec fn view(&self) -> CollectorModel {
        CollectorModel { values: self.values@, covered: self.covered@ }
    }
}

impl BulkMeasurementCollector {
    pub open spec fn wf(&self) -> bool {
        self@.values.len() == N_PINS && self@.covered.len() == N_PINS
    }

    /// A collector with a zeroed buffer and nothing written yet.
    pub fn new() -> (c: Self)
        ensures
            c.wf(),
            c@.values == Seq::new(N_PINS as nat, |i: int| 0u16),
            c@.covered == Seq::new(N_PINS as nat, |i: int| false),
    {
        let mut values: Vec<u16> = Vec::new();
        let mut covered: Vec<bool> = Vec::new();
        let mut i: usize = 0;
        while i < N_PINS
            invariant
                i <= N_PINS,
                values@ == Seq::new(i as nat, |j: int| 0u16),
                covered@ == Seq::new(i as nat, |j: int| false),
            decreases N_PINS - i,
        {
            values.push(0);
            covered.push(false);
            i = i + 1;
        }
        BulkMeasurementCollector { values, covered }
    }

    /// Merges `values` into the buffer at `start_index`. Once every channel has
    /// been written since the last completed sample, returns that sample,
    /// calibrated, and starts a new cycle. A write past the end of the array is
    /// refused and leaves the collector unchanged.
    pub fn add_measurements(&mut self, start_index: usize, values: Vec<u16>) -> (r: Result<
        Option<Vec<i32>>,
        CollectorError,
    >)
        requires
            old(self).wf(),
        ensures
            final(self).wf(),
            !write_in_range(start_index as int, values@) ==> r == Err::<Option<Vec<i32>>, CollectorError>(
                CollectorError::OutOfRange,
            ) && final(self)@ == old(self)@,
            write_in_range(start_index as int, values@) ==> {
                let (m, out) = collector_step(old(self)@, start_index as int, values@);
                &&& r is Ok
                &&& final(self)@ == m
                &&& match out {
                    Some(sample) => r->Ok_0 matches Some(v) && v@ == sample,
                    None => r->Ok_0 is None,
                }
            },
    {
        if start_index > N_PINS || values.len() > N_PINS - start_index {
            return Err(CollectorError::OutOfRange);
        }
        let ghost old_values = self.values@;
        let ghost old_covered = self.covered@;
        let mut k: usize = 0;
        while k < values.len()
            invariant
                start_index + values@.len() <= N_PINS,
                k <= values@.len(),
                self.values@.len() == N_PINS,
                self.covered@.len() == N_PINS,
                forall|i: int|
                    0 <= i < N_PINS ==> #[trigger] self.values@[i] == if start_index <= i
                        < start_index + k {
                        values@[i - start_index]
                    } else {
                        old_values[i]
                    },
                forall|i: int|
                    0 <= i < N_PINS ==> #[trigger] self.covered@[i] == (old_covered[i] || (
                    start_index <= i < start_index + k)),
            decreases values@.len() - k,
        {
            self.values.set(start_index + k, values[k]);
            self.covered.set(start_index + k, true);
            k = k + 1;
        }
        assert(self.values@ =~= write_range(old_values, start_index as int, values@));
        assert(self.covered@ =~= cover_range(old_covered, start_index as int, values@.len() as int));
        let mut complete = true;
        let mut i: usize = 0;
        while i < N_PINS
            invariant
                i <= N_PINS,
                self.covered@.len() == N_PINS,
                complete == forall|j: int| 0 <= j < i ==> #[trigger] self.covered@[j],
            decreases N_PINS - i,
        {
            if !self.covered[i] {
                complete = false;
            }
            i = i + 1;
        }
        if !complete {
            return Ok(None);
        }
        let ghost written = self.values@;
        let mut sample: Vec<i32> = Vec::new();
        let mut i: usize = 0;
        while i < N_PINS
            invariant
                i <= N_PINS,
                self.values@ == written,
                written.len() == N_PINS,
                self.covered@.len() == N_PINS,
                sample@.len() == i,
                forall|j: int| 0 <= j < i ==> #[trigger] sample@[j] == calibrated(self.values@[j]),
                forall|j: int| 0 <= j < i ==> !#[trigger] self.covered@[j],
            decreases N_PINS - i,
        {
            sample.push(self.values[i] as i32 + CAP_OFFSET);
            self.covered.set(i, false);
            i = i + 1;
        }
        assert(sample@ =~= calibrate(self.values@));
        assert(self.covered@ =~= Seq::new(N_PINS as nat, |i: int| false));
        Ok(Some(sample))
    }
}

/// The state and the completed samples after the in-range writes `writes`,
/// each a start index and the raw values written there, applied in order.
pub open spec fn run_writes(m: CollectorModel, writes: Seq<(int, Seq<u16>)>) -> (CollectorModel, Seq<
    Seq<i32>,
>)
    decreases writes.len(),
{
    if writes.len() == 0 {
        (m, Seq::empty())
    } else {
        let (m1, emitted) = run_writes(m, writes.drop_last());
        let (m2, out) = collector_step(m1, writes.last().0, writes.last().1);
        (
            m2,
            match out {
                Some(sample) => emitted.push(sample),
                None => emitted,
            },
        )
    }
}

/// The buffer `base` after each write in turn: every index holds the value of
/// the last write that reached it.
pub open spec fn latest_values(base: Seq<u16>, writes: Seq<(int, Seq<u16>)>) -> Seq<u16>
    decreases writes.len(),
{
    if writes.len() == 0 {
        base
    } else {
        write_range(latest_values(base, writes.drop_last()), writes.last().0, writes.last().1)
    }
}

/// Some write of `writes` reaches index `i`.
pub open spec fn written_by(writes: Seq<(int, Seq<u16>)>, i: int) -> bool {
    exists|k: int|
        0 <= k < writes.len() && #[trigger] writes[k].0 <= i < writes[k].0 + writes[k].1.len()
}

/// The index ranges of `writes` together cover every channel.
pub open spec fn covers_array(writes: Seq<(int, Seq<u16>)>) -> bool {
    forall|i: int| 0 <= i < N_PINS ==> #[trigger] written_by(writes, i)
}

/// The coverage of a cycle in which nothing has been written yet.
pub open spec fn nothing_covered() -> Seq<bool> {
    Seq::new(N_PINS as nat, |i: int| false)
}

proof fn lemma_written_by_last(writes: Seq<(int, Seq<u16>)>, i: int)
    requires
        writes.len() > 0,
    ensures
        written_by(writes, i) == (written_by(writes.drop_last(), i) || (writes.last().0 <= i
            < writes.last().0 + writes.last().1.len())),
{
    let w0 = writes.drop_last();
    if written_by(writes, i) {
        let k = choose|k: int|
            0 <= k < writes.len() && #[trigger] writes[k].0 <= i < writes[k].0
                + writes[k].1.len();
        if k < writes.len() - 1 {
            assert(w0[k] == writes[k]);
        }
    }
    if written_by(w0, i) {
        let k = choose|k: int|
            0 <= k < w0.len() && #[trigger] w0[k].0 <= i < w0[k].0 + w0[k].1.len();
        assert(writes[k] == w0[k]);
    }
    if writes.last().0 <= i < writes.last().0 + writes.last().1.len() {
        assert(writes[writes.len() - 1] == writes.last());
    }
}

proof fn lemma_partial_cover(m: CollectorModel, writes: Seq<(int, Seq<u16>)>)
    requires
        m.values.len() == N_PINS,
        m.covered == nothing_covered(),
        forall|k: int| 0 <= k < writes.len() ==> write_in_range(#[trigger] writes[k].0, writes[k].1),
        !covers_array(writes),
    ensures
        run_writes(m, writes).1.len() == 0,
        run_writes(m, writes).0.values == latest_values(m.values, writes),
        run_writes(m, writes).0.covered == Seq::new(N_PINS as nat, |i: int| written_by(writes, i)),
    decreases writes.len(),
{
    if writes.len() == 0 {
        assert(Seq::new(N_PINS as nat, |i: int| written_by(writes, i)) =~= nothing_covered());
    } else {
        let w0 = writes.drop_last();
        assert forall|i: int| 0 <= i < N_PINS && #[trigger] written_by(w0, i) implies written_by(
            writes,
            i,
        ) by {
            lemma_written_by_last(writes, i);
        }
        let gap = choose|i: int| 0 <= i < N_PINS && !#[trigger] written_by(writes, i);
        assert(!written_by(w0, gap));
        assert forall|k: int| 0 <= k < w0.len() implies write_in_range(#[trigger] w0[k].0, w0[k].1) by {
            assert(w0[k] == writes[k]);
        }
        lemma_partial_cover(m, w0);
        let (m1, e1) = run_writes(m, w0);
        let cov = cover_range(m1.covered, writes.last().0, writes.last().1.len() as int);
        assert forall|i: int| 0 <= i < N_PINS implies #[trigger] cov[i] == written_by(writes, i) by {
            lemma_written_by_last(writes, i);
        }
        assert(cov =~= Seq::new(N_PINS as nat, |i: int| written_by(writes, i)));
        assert(!cov[gap]);
    }
}

/// From the start of a cycle, a sequence of in-range writes whose index ranges
/// first cover the whole array at its last write yields exactly one completed
/// sample: the calibrated latest value written at each index.
pub proof fn lemma_full_cover_completes_once(m: CollectorModel, writes: Seq<(int, Seq<u16>)>)
    requires
        m.values.len() == N_PINS,
        m.covered == nothing_covered(),
        forall|k: int| 0 <= k < writes.len() ==> write_in_range(#[trigger] writes[k].0, writes[k].1),
        writes.len() > 0,
        covers_array(writes),
        !covers_array(writes.drop_last()),
    ensures
        run_writes(m, writes).1 == seq![calibrate(latest_values(m.values, writes))],
        run_writes(m, writes).0.covered == nothing_covered(),
{
    let w0 = writes.drop_last();
    assert forall|k: int| 0 <= k < w0.len() implies write_in_range(#[trigger] w0[k].0, w0[k].1) by {
        assert(w0[k] == writes[k]);
    }
    lemma_partial_cover(m, w0);
    let (m1, e1) = run_writes(m, w0);
    let cov = cover_range(m1.covered, writes.last().0, writes.last().1.len() as int);
    assert forall|i: int| 0 <= i < N_PINS implies #[trigger] cov[i] by {
        lemma_written_by_last(writes, i);
        assert(written_by(writes, i));
    }
    assert(all_covered(cov));
    assert(e1.push(calibrate(latest_values(m.values, writes))) =~= seq![calibrate(latest_values(m.values, writes))]);
}

} // verus!
