use vstd::prelude::*;
use crate::dispatch::{body_slots, placeholders, window_slots};
use crate::model::{FetchOutcome, Slot, VisibleWindow};

verus! {

/// Rendering is a pure projection of its inputs: two renders that see the
/// same window and column count, and the same outcomes and selection on the
/// window's indices, give the same slots. In particular, rendering twice
/// with identical inputs gives identical output.
pub proof fn lemma_render_is_projection<R>(
    window: VisibleWindow,
    outcomes1: Map<usize, FetchOutcome<R>>,
    outcomes2: Map<usize, FetchOutcome<R>>,
    selection1: Set<usize>,
    selection2: Set<usize>,
    col_count: usize,
)
    requires
        window.wf(),
        forall|i: usize|
            window.contains(i as int) ==> (outcomes1.contains_key(i) <==> outcomes2.contains_key(i)),
        forall|i: usize|
            window.contains(i as int) && outcomes1.contains_key(i) ==> outcomes1[i] == outcomes2[i],
        forall|i: usize| window.contains(i as int) ==> (selection1.contains(i) <==> selection2.contains(i)),
    ensures
        window_slots(window, outcomes1, selection1, col_count) == window_slots(
            window,
            outcomes2,
            selection2,
            col_count,
        ),
{
    let b1 = body_slots(window, outcomes1, selection1, col_count);
    let b2 = body_slots(window, outcomes2, selection2, col_count);
    assert forall|k: int| 0 <= k < b1.len() implies b1[k] == b2[k] by {
        let i = (window.start + k) as usize;
        assert(window.contains(i as int));
    }
    assert(b1 =~= b2);
}

/// An off-screen extent of height `h` above the window shows as exactly one
/// block of height `h` in front of the rows; a zero extent shows no block.
pub proof fn lemma_above_placeholder<R>(
    window: VisibleWindow,
    outcomes: Map<usize, FetchOutcome<R>>,
    selection: Set<usize>,
    col_count: usize,
)
    requires
        window.wf(),
    ensures
        ({
            let slots = window_slots(window, outcomes, selection, col_count);
            let n = window.len() as int;
            &&& window.above_height > 0 ==> slots[0] == (Slot::Placeholder {
                height: window.above_height,
            }) && forall|k: int| 1 <= k < 1 + n ==> !(#[trigger] slots[k] is Placeholder)
            &&& window.above_height == 0 ==> forall|k: int|
                0 <= k < n ==> !(#[trigger] slots[k] is Placeholder)
        }),
{
    let slots = window_slots(window, outcomes, selection, col_count);
    let body = body_slots(window, outcomes, selection, col_count);
    let above = placeholders(window.above_height);
    assert forall|k: int| 0 <= k < body.len() implies !(body[k] is Placeholder) by {}
    assert forall|k: int| above.len() <= k < above.len() + body.len() implies slots[k] == body[k
        - above.len()] by {}
}

} // verus!
