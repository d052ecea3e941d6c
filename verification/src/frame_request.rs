use vstd::prelude::*;

verus! {

/// A coalescing "compose another frame" flag.
///
/// Any number of `request` calls between two `take` calls collapse into a
/// single pending request; `take` reports it once and clears it.
pub struct ReposeFrameRequest {
    requested: bool,
}

impl View for ReposeFrameRequest {
    type V = bool;

    /// Whether a frame request is pending.
    closed spec fn view(&self) -> bool {
        self.requested
    }
}

impl Default for ReposeFrameRequest {
    fn default() -> (r: Self)
        ensures
            r@ == false,
    {
        ReposeFrameRequest { requested: false }
    }
}

/// The pending flag after a request.
pub open spec fn requested_after_request(pending: bool) -> bool {
    true
}

/// What `take` reports, and the pending flag it leaves behind.
pub open spec fn take_outcome(pending: bool) -> (bool, bool) {
    (pending, false)
}

impl ReposeFrameRequest {
    /// Marks a frame as requested.
    pub fn request(&mut self)
        ensures
            final(self)@ == requested_after_request(old(self)@),
    {
        self.requested = true;
    }

    /// Reports whether a frame was requested and clears the request.
    pub fn take(&mut self) -> (was_requested: bool)
        ensures
            (was_requested, final(self)@) == take_outcome(old(self)@),
    {
        let was = self.requested;
        self.requested = false;
        was
    }

    /// Reports whether a frame is requested, leaving the request in place.
    pub fn is_requested(&self) -> (r: bool)
        ensures
            r == self@,
    {
        self.requested
    }
}

/// Requests coalesce: whatever was pending, after one or more requests the
/// next `take` reports a request, and a second `take` right after reports none.
pub proof fn lemma_requests_coalesce(pending: bool)
    ensures
        take_outcome(requested_after_request(pending)).0,
        take_outcome(requested_after_request(requested_after_request(pending))).0,
        !take_outcome(take_outcome(requested_after_request(pending)).1).0,
{
}

/// `take` reports exactly whether a request was pending, and always leaves
/// none pending.
pub proof fn lemma_take_reports_pending(pending: bool)
    ensures
        take_outcome(pending).0 == pending,
        !take_outcome(pending).1,
{
}

/// A call on a frame request.
pub enum FrameRequestOp {
    Request,
    Take,
}

/// The pending flag after running `ops` from `pending`.
pub open spec fn pending_after(pending: bool, ops: Seq<FrameRequestOp>) -> bool
    decreases ops.len(),
{
    if ops.len() == 0 {
        pending
    } else {
        let before = pending_after(pending, ops.drop_last());
        match ops.last() {
            FrameRequestOp::Request => requested_after_request(before),
            FrameRequestOp::Take => take_outcome(before).1,
        }
    }
}

/// Whether some request in `ops` came after its last take, or `ops` holds no
/// take and a request was pending before them.
pub open spec fn requested_since_last_take(pending: bool, ops: Seq<FrameRequestOp>) -> bool {
    ||| exists|j: int|
        0 <= j < ops.len() && #[trigger] ops[j] is Request
            && forall|k: int| j < k < ops.len() ==> !(#[trigger] ops[k] is Take)
    ||| pending && forall|k: int| 0 <= k < ops.len() ==> !(#[trigger] ops[k] is Take)
}

/// After any sequence of calls, a request is pending exactly when one was
/// made since the last take (or was pending before, with no take since).
pub proof fn lemma_pending_is_request_since_take(pending: bool, ops: Seq<FrameRequestOp>)
    ensures
        pending_after(pending, ops) == requested_since_last_take(pending, ops),
    decreases ops.len(),
{
    if ops.len() > 0 {
        let prev = ops.drop_last();
        lemma_pending_is_request_since_take(pending, prev);
        let n = ops.len() - 1;
        match ops.last() {
            FrameRequestOp::Request => {
                assert(ops[n] is Request);
            },
            FrameRequestOp::Take => {
                assert(ops[n] is Take);
                if exists|j: int|
                    0 <= j < ops.len() && #[trigger] ops[j] is Request
                        && forall|k: int| j < k < ops.len() ==> !(#[trigger] ops[k] is Take) {
                    let j = choose|j: int|
                        0 <= j < ops.len() && #[trigger] ops[j] is Request
                            && forall|k: int| j < k < ops.len() ==> !(#[trigger] ops[k] is Take);
                    if j < n {
                        assert(!(ops[n] is Take));
                    }
                }
            },
        }
        assert forall|j: int| 0 <= j < prev.len() implies prev[j] == ops[j] by {}
        if requested_since_last_take(pending, prev) && ops.last() is Request {
            assert(requested_since_last_take(pending, ops));
        }
    }
}

/// Over any sequence of calls, each `take` reports exactly whether `request`
/// was called since the previous `take` (or since the start, counting a
/// request pending then), and leaves no request pending.
pub proof fn lemma_take_reports_requests_since_last_take(
    pending: bool,
    ops: Seq<FrameRequestOp>,
    i: int,
)
    requires
        0 <= i < ops.len(),
        ops[i] is Take,
    ensures
        take_outcome(pending_after(pending, ops.take(i))).0 == requested_since_last_take(pending, ops.take(i)),
        !pending_after(pending, ops.take(i + 1)),
{
    lemma_pending_is_request_since_take(pending, ops.take(i));
    assert(ops.take(i + 1).drop_last() =~= ops.take(i));
    assert(ops.take(i + 1).last() == ops[i]);
}

} // verus!
