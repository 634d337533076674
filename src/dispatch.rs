use std::collections::{HashMap, HashSet};
use vstd::prelude::*;
use crate::model::{FetchOutcome, Slot, VisibleWindow};
use crate::strategy::{error_slot, loading_slot, placeholder_slot, row_slot};

verus! {

broadcast use vstd::std_specs::hash::group_hash_axioms;

/// The slot for row `i`: the row itself when loaded, an error row when the
/// fetch failed, and a loading row when it is pending or not known at all.
pub open spec fn slot_at<R>(
    outcomes: Map<usize, FetchOutcome<R>>,
    selection: Set<usize>,
    col_count: usize,
    i: usize,
) -> Slot {
    if outcomes.contains_key(i) {
        match outcomes[i] {
            FetchOutcome::Loaded(_) => Slot::Row { index: i, selected: selection.contains(i) },
            FetchOutcome::Failed(message) => Slot::Error { index: i, message, col_span: col_count },
            FetchOutcome::Pending => Slot::Loading { index: i, filler_cells: col_count },
        }
    } else {
        Slot::Loading { index: i, filler_cells: col_count }
    }
}

/// The placeholder emitted for an off-screen extent: none for a zero height.
pub open spec fn placeholders(height: u64) -> Seq<Slot> {
    if height > 0 {
        seq![Slot::Placeholder { height }]
    } else {
        Seq::empty()
    }
}

/// The row slots of the window, in ascending index order.
pub open spec fn body_slots<R>(
    window: VisibleWindow,
    outcomes: Map<usize, FetchOutcome<R>>,
    selection: Set<usize>,
    col_count: usize,
) -> Seq<Slot> {
    Seq::new(window.len(), |k: int| slot_at(outcomes, selection, col_count, (window.start + k) as usize))
}

/// Everything shown for the window: the block above, the rows, the block below.
pub open spec fn window_slots<R>(
    window: VisibleWindow,
    outcomes: Map<usize, FetchOutcome<R>>,
    selection: Set<usize>,
    col_count: usize,
) -> Seq<Slot> {
    placeholders(window.above_height) + body_slots(window, outcomes, selection, col_count)
        + placeholders(window.below_height)
}

/// Number of placeholder blocks emitted for an extent: one, or none at zero.
pub open spec fn placeholder_count(height: u64) -> nat {
    if height > 0 { 1 } else { 0 }
}

/// The slot chosen for one index, from what the data source has for it.
pub fn dispatch_slot<R>(
    index: usize,
    outcome: Option<&FetchOutcome<R>>,
    selected: bool,
    col_count: usize,
) -> (r: Slot)
    ensures
        r == (match outcome {
            Some(FetchOutcome::Loaded(_)) => Slot::Row { index, selected },
            Some(FetchOutcome::Failed(message)) => Slot::Error {
                index,
                message: *message,
                col_span: col_count,
            },
            _ => Slot::Loading { index, filler_cells: col_count },
        }),
{
    match outcome {
        Some(FetchOutcome::Loaded(_)) => row_slot(index, selected),
        Some(FetchOutcome::Failed(message)) => error_slot(message.clone(), index, col_count),
        _ => loading_slot(index, col_count),
    }
}

/// Renders the slots of a visible window: a placeholder above when the
/// hidden extent there is positive, one slot per index of the window in
/// ascending order, and a placeholder below under the same rule. The
/// output depends on the inputs alone.
pub fn render_window<R>(
    window: &VisibleWindow,
    outcomes: &HashMap<usize, FetchOutcome<R>>,
    selection: &HashSet<usize>,
    col_count: usize,
) -> (r: Vec<Slot>)
    requires
        window.wf(),
    ensures
        r@ == window_slots(*window, outcomes@, selection@, col_count),
        r.len() == placeholder_count(window.above_height) + window.len()
            + placeholder_count(window.below_height),
        window.above_height > 0 ==> r@[0] == (Slot::Placeholder { height: window.above_height }),
        window.below_height > 0 ==> r@.last() == (Slot::Placeholder { height: window.below_height }),
        forall|i: usize|
            #![trigger outcomes@.contains_key(i)]
            #![trigger outcomes@[i]]
            window.contains(i as int) ==> {
                let slot = r@[placeholder_count(window.above_height) + i - window.start];
                &&& !(slot is Placeholder)
                &&& outcomes@.contains_key(i) && outcomes@[i] is Loaded ==> slot == (Slot::Row {
                    index: i,
                    selected: selection@.contains(i),
                })
                &&& outcomes@.contains_key(i) && outcomes@[i] is Failed ==> slot == (Slot::Error {
                    index: i,
                    message: outcomes@[i]->Failed_0,
                    col_span: col_count,
                })
                &&& !outcomes@.contains_key(i) || outcomes@[i] is Pending ==> slot == (Slot::Loading {
                    index: i,
                    filler_cells: col_count,
                })
            },
{
    let ghost body = body_slots(*window, outcomes@, selection@, col_count);
    let ghost above = placeholders(window.above_height);
    let mut out: Vec<Slot> = Vec::new();
    if let Some(p) = placeholder_slot(window.above_height) {
        out.push(p);
    }
    assert(out@ =~= above);
    let mut i: usize = window.start;
    while i < window.end
        invariant
            window.start <= i <= window.end,
            body == body_slots(*window, outcomes@, selection@, col_count),
            above == placeholders(window.above_height),
            out@ =~= above + body.subrange(0, i - window.start),
        decreases window.end - i,
    {
        let slot = dispatch_slot(i, outcomes.get(&i), selection.contains(&i), col_count);
        out.push(slot);
        assert(body.subrange(0, i + 1 - window.start) =~= body.subrange(0, i - window.start).push(
            body[i - window.start],
        ));
        i = i + 1;
    }
    assert(body.subrange(0, window.end - window.start) =~= body);
    if let Some(p) = placeholder_slot(window.below_height) {
        out.push(p);
    }
    assert(out@ =~= window_slots(*window, outcomes@, selection@, col_count));
    out
}

} // verus!
