//! The report sink: the state machine that owns the report's contents.
//!
//! The sink models the report as its sequence of rows; the surrounding
//! program writes those rows, behind the byte-order marker, to the output
//! file. Initialization uses truncate semantics: whatever report the
//! destination held before is discarded and a fresh header is emitted.
use vstd::prelude::*;

use crate::record::{header_row, header_spec, Record};

verus! {

enum SinkState {
    Uninitialized,
    Open,
    Closed,
}

/// An append-only report: one header row, then one row per processed
/// identifier.
pub struct ReportSink {
    state: SinkState,
    lines: Vec<String>,
}

impl ReportSink {
    /// The report's rows, header first.
    pub closed spec fn lines_view(self) -> Seq<Seq<char>> {
        self.lines@.map_values(|s: String| s@)
    }

    /// True before the first initialization.
    pub closed spec fn is_uninitialized(self) -> bool {
        self.state is Uninitialized
    }

    /// True while rows may be appended.
    pub closed spec fn is_open(self) -> bool {
        self.state is Open
    }

    /// True after the sink was closed.
    pub closed spec fn is_closed(self) -> bool {
        self.state is Closed
    }

    /// A sink that holds no report yet.
    pub fn new() -> (r: Self)
        ensures
            r.is_uninitialized(),
            r.lines_view() == Seq::<Seq<char>>::empty(),
    {
        let r = ReportSink { state: SinkState::Uninitialized, lines: Vec::new() };
        proof {
            assert(r.lines_view() =~= Seq::<Seq<char>>::empty());
        }
        r
    }

    /// (Re)creates the report: whatever the sink held before is discarded —
    /// truncate semantics — and the fresh report holds exactly the header row.
    pub fn initialize(&mut self)
        ensures
            final(self).is_open(),
            final(self).lines_view() == seq![header_spec()],
    {
        self.lines = Vec::new();
        self.lines.push(header_row());
        self.state = SinkState::Open;
        proof {
            assert(self.lines_view() =~= seq![header_spec()]);
        }
    }

    /// Appends one record's serialized row to the report.
    pub fn append(&mut self, rec: &Record)
        requires
            old(self).is_open(),
        ensures
            final(self).is_open(),
            final(self).lines_view() == old(self).lines_view().push(rec.row_spec()),
    {
        let row = rec.to_row();
        self.lines.push(row);
        proof {
            assert(self.lines_view() =~= old(self).lines_view().push(rec.row_spec()));
        }
    }

    /// Ends the report; its rows stay as they are.
    pub fn close(&mut self)
        ensures
            final(self).is_closed(),
            final(self).lines_view() == old(self).lines_view(),
    {
        self.state = SinkState::Closed;
    }

    /// Whether rows may currently be appended.
    pub fn opened(&self) -> (b: bool)
        ensures
            b == self.is_open(),
    {
        match self.state {
            SinkState::Open => true,
            SinkState::Uninitialized => false,
            SinkState::Closed => false,
        }
    }

    /// The report's rows, header first.
    pub fn rows(&self) -> (v: &Vec<String>)
        ensures
            v@.map_values(|s: String| s@) == self.lines_view(),
    {
        &self.lines
    }
}

/// The byte-order marker written ahead of the report text, for correct
/// display in spreadsheet tools.
pub fn bom() -> (b: Vec<u8>)
    ensures
        b@ == seq![0xefu8, 0xbbu8, 0xbfu8],
{
    let mut b: Vec<u8> = Vec::new();
    b.push(0xef);
    b.push(0xbb);
    b.push(0xbf);
    proof {
        assert(b@ =~= seq![0xefu8, 0xbbu8, 0xbfu8]);
    }
    b
}

} // verus!
