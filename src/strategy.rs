use vstd::prelude::*;
use crate::model::Slot;

verus! {

/// The slot of a loaded row: the row draws itself, marked selected or not.
pub fn row_slot(index: usize, selected: bool) -> (r: Slot)
    ensures
        r == (Slot::Row { index, selected }),
{
    Slot::Row { index, selected }
}

/// The block that stands in for hidden rows. A zero height gives no block
/// at all, so that no empty element is emitted.
pub fn placeholder_slot(height: u64) -> (r: Option<Slot>)
    ensures
        height > 0 ==> r == Some(Slot::Placeholder { height }),
        height == 0 ==> r is None,
{
    if height > 0 {
        Some(Slot::Placeholder { height })
    } else {
        None
    }
}

/// The slot of a row whose fetch failed: a single cell across all columns
/// that carries the message unchanged.
pub fn error_slot(message: String, index: usize, col_count: usize) -> (r: Slot)
    ensures
        r == (Slot::Error { index, message, col_span: col_count }),
{
    Slot::Error { index, message, col_span: col_count }
}

/// The slot of a row that has not arrived yet: as many filler cells as a
/// real row has columns, so the layout does not shift when it arrives.
pub fn loading_slot(index: usize, col_count: usize) -> (r: Slot)
    ensures
        r == (Slot::Loading { index, filler_cells: col_count }),
{
    Slot::Loading { index, filler_cells: col_count }
}

} // verus!
