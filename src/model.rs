use vstd::prelude::*;

verus! {

/// What the data source has produced so far for one row index.
#[derive(Clone, Debug, PartialEq, Eq)]
pub enum FetchOutcome<R> {
    /// The row arrived.
    Loaded(R),
    /// The fetch has not resolved yet.
    Pending,
    /// The fetch failed; the message is shown to the user as it stands.
    Failed(String),
}

/// The rows that need a rendered slot, `[start, end)`, together with the
/// aggregate pixel height of the rows hidden above and below them.
#[derive(Clone, Copy, Debug, PartialEq, Eq)]
pub struct VisibleWindow {
    pub start: usize,
    pub end: usize,
    pub above_height: u64,
    pub below_height: u64,
}

impl VisibleWindow {
    /// The range is contiguous and not reversed.
    pub open spec fn wf(&self) -> bool {
        self.start <= self.end
    }

    /// Number of row slots in the window.
    pub open spec fn len(&self) -> nat {
        (self.end - self.start) as nat
    }

    pub open spec fn contains(&self, i: int) -> bool {
        self.start <= i < self.end
    }
}

/// One rendered unit of the table body, in the order it is shown.
#[derive(Clone, Debug, PartialEq, Eq)]
pub enum Slot {
    /// An empty block of the given pixel height standing in for hidden rows.
    Placeholder { height: u64 },
    /// A loaded row, drawn by the row itself.
    Row { index: usize, selected: bool },
    /// A row still being fetched: one filler cell per column.
    Loading { index: usize, filler_cells: usize },
    /// A row whose fetch failed: one cell spanning `col_span` columns
    /// holding the message verbatim.
    Error { index: usize, message: String, col_span: usize },
}

} // verus!
