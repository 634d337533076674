use vstd::prelude::*;
use crate::model::Slot;

verus! {

/// A field edit made inside a rendered row, passed on to the table owner
/// without being read.
#[derive(Clone, Debug, PartialEq, Eq)]
pub struct ChangeEvent {
    pub row_index: usize,
    pub field: String,
    pub value: String,
}

/// Where a click landed inside a slot.
#[derive(Clone, Debug, PartialEq, Eq)]
pub enum ClickTarget {
    /// The row's own container, outside any control.
    RowRoot,
    /// An editable control inside the row, which reports its own edit.
    Control(ChangeEvent),
}

/// A notification for the table owner.
#[derive(Clone, Debug, PartialEq, Eq)]
pub enum SinkEvent {
    Select(usize),
    Change(ChangeEvent),
}

/// The notifications that one click sends to the table's sink. Only loaded
/// rows react to clicks. A click on the row's container selects that row
/// once; a click in a control forwards the control's edit and does not
/// select.
pub fn route_click(slot: &Slot, target: ClickTarget) -> (r: Vec<SinkEvent>)
    ensures
        slot is Row && target is RowRoot ==> r@ == seq![SinkEvent::Select(slot->Row_index)],
        slot is Row && target is Control ==> r@ == seq![SinkEvent::Change(target->Control_0)],
        !(slot is Row) ==> r@ == Seq::<SinkEvent>::empty(),
{
    let mut out: Vec<SinkEvent> = Vec::new();
    match slot {
        Slot::Row { index, .. } => match target {
            ClickTarget::RowRoot => out.push(SinkEvent::Select(*index)),
            ClickTarget::Control(ev) => out.push(SinkEvent::Change(ev)),
        },
        _ => {},
    }
    out
}

} // verus!
