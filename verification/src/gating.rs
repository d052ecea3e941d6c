use vstd::prelude::*;

use crate::output::ReposeOutput;

verus! {

/// Run condition: the UI wants the pointer.
pub fn wants_pointer(o: &ReposeOutput) -> (r: bool)
    ensures
        r == o.wants_pointer,
{
    o.wants_pointer
}

/// Run condition: the UI wants the keyboard.
pub fn wants_keyboard(o: &ReposeOutput) -> (r: bool)
    ensures
        r == o.wants_keyboard,
{
    o.wants_keyboard
}

/// Run condition: the UI consumed a pointer event this frame.
pub fn pointer_consumed(o: &ReposeOutput) -> (r: bool)
    ensures
        r == o.pointer_consumed,
{
    o.pointer_consumed
}

/// Run condition: the UI consumed a scroll event this frame.
pub fn scroll_consumed(o: &ReposeOutput) -> (r: bool)
    ensures
        r == o.scroll_consumed,
{
    o.scroll_consumed
}

} // verus!
