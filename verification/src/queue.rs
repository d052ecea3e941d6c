use vstd::prelude::*;

verus! {

/// The queued values after `value` is sent.
pub open spec fn spec_sent<T>(queued: Seq<T>, value: T) -> Seq<T> {
    queued.push(value)
}

/// What a drain returns, and what stays queued.
pub open spec fn spec_drained<T>(queued: Seq<T>) -> (Seq<T>, Seq<T>) {
    (queued, Seq::empty())
}

/// Appends a value to a channel's queue.
pub fn channel_send<T>(queued: &mut Vec<T>, value: T)
    ensures
        final(queued)@ == spec_sent(old(queued)@, value),
{
    queued.push(value);
}

/// Takes every queued value, oldest first, and leaves the queue empty.
pub fn channel_drain<T>(queued: &mut Vec<T>) -> (taken: Vec<T>)
    ensures
        (taken@, final(queued)@) == spec_drained(old(queued)@),
{
    let mut taken: Vec<T> = Vec::new();
    std::mem::swap(queued, &mut taken);
    taken
}

/// A drain gives back exactly what was sent since the last drain, in the
/// order it was sent, and a second drain right after gives nothing.
pub proof fn lemma_drain_returns_sent_in_order<T>(queued: Seq<T>, a: T, b: T)
    ensures
        ({
            let (taken, rest) = spec_drained(spec_sent(spec_sent(queued, a), b));
            &&& taken == queued.push(a).push(b)
            &&& taken.len() == queued.len() + 2
            &&& taken[queued.len() as int] == a
            &&& taken[queued.len() as int + 1] == b
            &&& spec_drained(rest).0.len() == 0
        }),
{
}

/// The queued values after sending each of `values` in turn.
pub open spec fn spec_sent_all<T>(queued: Seq<T>, values: Seq<T>) -> Seq<T>
    decreases values.len(),
{
    if values.len() == 0 {
        queued
    } else {
        spec_sent(spec_sent_all(queued, values.drop_last()), values.last())
    }
}

/// For any number of sends with no drain in between, a drain returns what was
/// queued followed by every sent value in send order, and the next drain
/// returns nothing.
pub proof fn lemma_drain_returns_all_sent<T>(queued: Seq<T>, values: Seq<T>)
    ensures
        spec_sent_all(queued, values) == queued + values,
        spec_drained(spec_sent_all(queued, values)).0 == queued + values,
        spec_drained(spec_drained(spec_sent_all(queued, values)).1).0.len() == 0,
    decreases values.len(),
{
    if values.len() > 0 {
        lemma_drain_returns_all_sent(queued, values.drop_last());
        assert(queued + values =~= (queued + values.drop_last()).push(values.last()));
    } else {
        assert(queued + values =~= queued);
    }
}

/// Where a click handler's world callback goes.
#[derive(Clone, Copy, Debug, PartialEq, Eq, Structural)]
pub enum ClickRoute {
    /// The queue that was current when the handler was composed.
    ComposeQueue,
    /// The queue current when the click happens.
    CurrentQueue,
    /// No queue: the callback is dropped (with a warning).
    Dropped,
}

pub open spec fn spec_route_click(had_compose_queue: bool, has_current_queue: bool) -> ClickRoute {
    if had_compose_queue {
        ClickRoute::ComposeQueue
    } else if has_current_queue {
        ClickRoute::CurrentQueue
    } else {
        ClickRoute::Dropped
    }
}

/// Routes a click's world callback. Input is usually handled outside any
/// compose scope, so the queue captured when the handler was composed comes
/// first; the queue current at click time is the fallback.
pub fn route_click(had_compose_queue: bool, has_current_queue: bool) -> (r: ClickRoute)
    ensures
        r == spec_route_click(had_compose_queue, has_current_queue),
{
    if had_compose_queue {
        ClickRoute::ComposeQueue
    } else if has_current_queue {
        ClickRoute::CurrentQueue
    } else {
        ClickRoute::Dropped
    }
}

/// A handler composed inside a scope never loses its click, wherever the
/// click is handled; only a handler composed outside every scope and clicked
/// outside every scope is dropped.
pub proof fn lemma_composed_click_never_dropped(has_current_queue: bool)
    ensures
        spec_route_click(true, has_current_queue) == ClickRoute::ComposeQueue,
        spec_route_click(false, has_current_queue) == ClickRoute::Dropped <==> !has_current_queue,
{
}

} // verus!
