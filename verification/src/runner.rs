//! The paced runner: identifiers are processed strictly in source order, one
//! per step, with a fixed delay between the start of one fetch and the next.
//!
//! The runner is the decision core of the loop; the surrounding program
//! performs the fetch and the waiting, hands each outcome in as an event, and
//! stops the run the moment a step reports a fetch failure (fail-fast: one
//! failed fetch ends the whole run, a deliberate simplicity trade-off).
use vstd::prelude::*;

use crate::extract::{build_record, csv_row_spec, record_spec};
use crate::markup::parse_document;
use crate::sink::ReportSink;

verus! {

/// What one fetch attempt produced: the response body, or a network failure.
pub enum FetchOutcome {
    /// The full response body for the identifier.
    Fetched(String),
    /// Connection failure, timeout, or a non-decodable body.
    Failed,
}

/// Drives the per-identifier loop over a fixed work list.
pub struct PacedRunner {
    ids: Vec<String>,
    next: usize,
    delay_ms: u64,
    last_start: Option<u64>,
    history: Ghost<Seq<int>>,
}

impl PacedRunner {
    /// The work list, in source order.
    pub closed spec fn ids(self) -> Seq<Seq<char>> {
        self.ids@.map_values(|s: String| s@)
    }

    /// How many identifiers have been processed so far.
    pub closed spec fn processed(self) -> int {
        self.next as int
    }

    /// The configured pause between fetch starts, in milliseconds.
    pub closed spec fn delay(self) -> u64 {
        self.delay_ms
    }

    /// The start times of the fetches performed so far, in order.
    pub closed spec fn fetch_times(self) -> Seq<int> {
        self.history@
    }

    /// The runner's invariant: one fetch was started per processed
    /// identifier, their start times are spaced at least the delay apart,
    /// and the recorded last start is the latest of them.
    pub closed spec fn wf(self) -> bool {
        &&& self.next <= self.ids@.len()
        &&& self.history@.len() == self.next
        &&& (forall|i: int|
            0 <= i && i + 1 < self.history@.len() ==> #[trigger] self.history@[i] + self.delay_ms
                <= self.history@[i + 1])
        &&& match self.last_start {
            Some(t) => self.history@.len() > 0 && self.history@.last() == t as int,
            None => self.history@.len() == 0,
        }
    }

    /// A runner over the given work list and inter-request delay.
    pub fn new(ids: Vec<String>, delay_ms: u64) -> (r: Self)
        ensures
            r.wf(),
            r.ids() == ids@.map_values(|s: String| s@),
            r.processed() == 0,
            r.fetch_times() == Seq::<int>::empty(),
            r.delay() == delay_ms,
    {
        PacedRunner { ids, next: 0, delay_ms, last_start: None, history: Ghost(Seq::empty()) }
    }

    /// Whether every identifier has been processed.
    pub fn finished(&self) -> (b: bool)
        ensures
            b == (self.processed() == self.ids().len()),
    {
        self.next == self.ids.len()
    }

    /// Whether a fetch started at `now` would respect the pacing delay.
    pub closed spec fn ready_at(self, now: u64) -> bool {
        match self.last_start {
            Some(t) => t + self.delay_ms <= now,
            None => true,
        }
    }

    /// Whether the delay since the last fetch start has elapsed at `now`.
    pub fn ready(&self, now: u64) -> (b: bool)
        ensures
            b == self.ready_at(now),
    {
        match self.last_start {
            Some(t) => now >= t && now - t >= self.delay_ms,
            None => true,
        }
    }

    /// The identifier the next step will process.
    pub fn current(&self) -> (id: &String)
        requires
            self.processed() < self.ids().len(),
        ensures
            id@ == self.ids()[self.processed()],
    {
        &self.ids[self.next]
    }

    /// Processes one identifier from the outcome of its fetch, started at
    /// `now`: on a fetched body, the parsed document's record is appended to
    /// the report and the runner advances by exactly one identifier; on a
    /// fetch failure nothing changes and the run is to be abandoned
    /// (fail-fast), which the `false` result reports.
    pub fn step(&mut self, sink: &mut ReportSink, now: u64, fetched: FetchOutcome) -> (ok: bool)
        requires
            old(self).wf(),
            old(self).processed() < old(self).ids().len(),
            old(self).ready_at(now),
            old(sink).is_open(),
        ensures
            final(self).wf(),
            final(self).ids() == old(self).ids(),
            final(self).delay() == old(self).delay(),
            final(sink).is_open(),
            match fetched {
                FetchOutcome::Fetched(markup) => {
                    &&& ok
                    &&& final(self).processed() == old(self).processed() + 1
                    &&& final(self).fetch_times() == old(self).fetch_times().push(now as int)
                    &&& final(sink).lines_view() == old(sink).lines_view().push(
                        csv_row_spec(markup@, old(self).ids()[old(self).processed()]),
                    )
                },
                FetchOutcome::Failed => {
                    &&& !ok
                    &&& final(self).processed() == old(self).processed()
                    &&& final(self).fetch_times() == old(self).fetch_times()
                    &&& final(sink).lines_view() == old(sink).lines_view()
                },
            },
    {
        match fetched {
            FetchOutcome::Fetched(markup) => {
                let doc = parse_document(markup.as_str());
                let rec = build_record(&doc, self.ids[self.next].as_str());
                sink.append(&rec);
                proof {
                    let m = markup@;
                    let id = old(self).ids()[old(self).processed()];
                    assert(rec.fields() == record_spec(m, id));
                    assert(rec.price@ == record_spec(m, id)[2]);
                    assert(rec.csv_fields() =~= record_spec(m, id).update(
                        2,
                        crate::text::strip_commas_spec(record_spec(m, id)[2]),
                    ));
                    assert(rec.row_spec() == csv_row_spec(m, id));
                }
                self.last_start = Some(now);
                assert(self.next < self.ids.len());
                self.next = self.next + 1;
                proof {
                    let h0 = old(self).history@;
                    self.history@ = self.history@.push(now as int);
                    let h = self.history@;
                    assert(h.len() == self.next);
                    assert(h.last() == now as int);
                    assert forall|i: int|
                        0 <= i && i + 1 < h.len() implies #[trigger] h[i] + self.delay_ms <= h[i
                        + 1] by {
                        if i + 1 < h0.len() {
                            assert(h[i] == h0[i]);
                            assert(h[i + 1] == h0[i + 1]);
                        } else {
                            match old(self).last_start {
                                Some(t) => {
                                    assert(h0.last() == t as int);
                                    assert(h[i] == h0[i]);
                                },
                                None => {
                                    assert(h0.len() == 0);
                                },
                            }
                        }
                    }
                }
                true
            },
            FetchOutcome::Failed => false,
        }
    }
}

proof fn lemma_spaced_pair(h: Seq<int>, d: u64, i: int, j: int)
    requires
        forall|k: int| 0 <= k && k + 1 < h.len() ==> #[trigger] h[k] + d <= h[k + 1],
        0 <= i < j < h.len(),
    ensures
        h[i] + d <= h[j],
    decreases j - i,
{
    if j > i + 1 {
        lemma_spaced_pair(h, d, i, j - 1);
    }
}

/// Law: a well-formed runner has performed exactly one fetch per processed
/// identifier — N identifiers take exactly N sequential steps — and no two
/// fetch start times lie within the configured delay of each other.
pub proof fn lemma_paced(r: PacedRunner)
    requires
        r.wf(),
    ensures
        r.fetch_times().len() == r.processed(),
        forall|i: int, j: int|
            0 <= i < j < r.fetch_times().len() ==> #[trigger] r.fetch_times()[i] + r.delay()
                <= #[trigger] r.fetch_times()[j],
{
    assert forall|i: int, j: int|
        0 <= i < j < r.fetch_times().len() implies #[trigger] r.fetch_times()[i] + r.delay()
        <= #[trigger] r.fetch_times()[j] by {
        lemma_spaced_pair(r.fetch_times(), r.delay(), i, j);
    }
}

} // verus!
