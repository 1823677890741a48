use vstd::prelude::*;
use crate::progress::Progress;

verus! {

/// Shared state of the outbound direction: the outcome of the last submitted
/// send, and the handle of the task to resume when the next one completes.
///
/// `H` is the resumption handle, `E` the transport's error.
#[derive(Debug)]
pub struct SendCell<H, E> {
    pub outcome: Progress<Result<(), E>>,
    pub handle: Option<H>,
}

/// What a readiness check finds and leaves: a ready outcome is handed out and
/// the cell is re-armed to `Pending`; a pending one stays.
pub open spec fn ready_result<H, E>(c: SendCell<H, E>) -> Progress<Result<(), E>> {
    c.outcome
}

pub open spec fn after_ready<H, E>(c: SendCell<H, E>, h: H) -> SendCell<H, E> {
    SendCell { outcome: Progress::Pending, handle: Some(h) }
}

/// What a flush or a close leaves: the handle is replaced, the outcome kept.
pub open spec fn after_wait<H, E>(c: SendCell<H, E>, h: H) -> SendCell<H, E> {
    SendCell { outcome: c.outcome, handle: Some(h) }
}

/// What a completion leaves: the outcome is stored and the handle taken out.
pub open spec fn after_complete<H, E>(c: SendCell<H, E>, r: Result<(), E>) -> SendCell<H, E> {
    SendCell { outcome: Progress::Ready(r), handle: None }
}

/// The cell after `n` send cycles, where cycle `i` is: a readiness check by
/// the task `hs[i]`, the submission of an item, the transport's completion
/// with `rs[i]`, and a flush by `hs[i]`.
pub open spec fn after_cycles<H, E>(c: SendCell<H, E>, rs: Seq<Result<(), E>>, hs: Seq<H>, n: nat) -> SendCell<H, E>
    decreases n,
{
    if n == 0 {
        c
    } else {
        let prev = after_cycles(c, rs, hs, (n - 1) as nat);
        after_wait(after_complete(after_ready(prev, hs[n - 1]), rs[n - 1]), hs[n - 1])
    }
}

/// What the flush of cycle `i` reports.
pub open spec fn flush_of_cycle<H, E>(c: SendCell<H, E>, rs: Seq<Result<(), E>>, hs: Seq<H>, i: nat) -> Progress<Result<(), E>> {
    after_complete(after_ready(after_cycles(c, rs, hs, i), hs[i as int]), rs[i as int]).outcome
}

/// Over any run of send cycles, the flush of each cycle reports exactly the
/// outcome that the transport gave for that cycle's send, and the readiness
/// check of the following cycle hands out that same outcome, so the outcomes
/// come out in submission order, none lost and none mixed up.
pub proof fn lemma_cycles_report_in_order<H, E>(c: SendCell<H, E>, rs: Seq<Result<(), E>>, hs: Seq<H>)
    requires
        hs.len() == rs.len(),
    ensures
        forall|i: nat| i < rs.len() ==> #[trigger] flush_of_cycle(c, rs, hs, i) == Progress::Ready(rs[i as int]),
        forall|i: nat| i < rs.len() ==> #[trigger] ready_result(after_cycles(c, rs, hs, i + 1)) == Progress::Ready(rs[i as int]),
{
    assert forall|i: nat| i < rs.len() implies #[trigger] ready_result(after_cycles(c, rs, hs, i + 1)) == Progress::Ready(rs[i as int]) by {
        assert((i + 1 - 1) as nat == i);
    }
}

/// Waiting does not disturb an outcome: a flush or a close leaves the outcome
/// that the next readiness check hands out, repeated flushes report the same
/// outcome, and readiness checks on a cell whose send is still outstanding
/// keep reporting `Pending`.
pub proof fn lemma_waiting_is_idempotent<H, E>(c: SendCell<H, E>, h1: H, h2: H)
    ensures
        ready_result(after_wait(c, h1)) == ready_result(c),
        after_wait(after_wait(c, h1), h2).outcome == c.outcome,
        c.outcome is Pending ==> ready_result(after_ready(c, h1)) == c.outcome && ready_result(after_ready(after_ready(c, h1), h2)) == c.outcome,
{
}

impl<H, E: Copy> SendCell<H, E> {
    /// A cell with no send outstanding: the first readiness check succeeds.
    pub fn new() -> (r: Self)
        ensures
            r.outcome == Progress::<Result<(), E>>::Ready(Ok(())),
            r.handle is None,
    {
        SendCell { outcome: Progress::Ready(Ok(())), handle: None }
    }

    /// Readiness check: records `h` as the task to resume; if the last send
    /// has completed, hands out its outcome and re-arms the cell for the next
    /// item.
    pub fn poll_ready(&mut self, h: H) -> (r: Progress<Result<(), E>>)
        ensures
            r == ready_result(*old(self)),
            *final(self) == after_ready(*old(self), h),
    {
        let r = self.outcome;
        self.outcome = Progress::Pending;
        self.handle = Some(h);
        r
    }

    /// Flush: records `h` and reports the outcome of the outstanding send,
    /// leaving it in place.
    pub fn poll_flush(&mut self, h: H) -> (r: Progress<Result<(), E>>)
        ensures
            r == old(self).outcome,
            *final(self) == after_wait(*old(self), h),
    {
        self.handle = Some(h);
        self.outcome
    }

    /// Close: waits as a flush does.
    pub fn poll_close(&mut self, h: H) -> (r: Progress<Result<(), E>>)
        ensures
            r == old(self).outcome,
            *final(self) == after_wait(*old(self), h),
    {
        self.poll_flush(h)
    }

    /// Completion of the outstanding send, called from the transport's
    /// callback: stores `res` and returns the handle to resume, if one is
    /// registered. The handle leaves the cell, so it is resumed once.
    pub fn complete(&mut self, res: Result<(), E>) -> (r: Option<H>)
        ensures
            r == old(self).handle,
            *final(self) == after_complete(*old(self), res),
    {
        self.outcome = Progress::Ready(res);
        self.handle.take()
    }
}

} // verus!
