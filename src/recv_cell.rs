use vstd::prelude::*;
use crate::progress::Progress;

verus! {

/// Shared state of the inbound direction.
///
/// `Idle`: no receive outstanding and no task waiting. `Waiting`: a receive
/// is outstanding and the handle is that of the task to resume. `Done`: the
/// receive has completed; its waiting task was handed out for resumption and
/// the outcome waits for the next pull.
#[derive(Debug)]
pub enum RecvCell<H, T, E> {
    Idle,
    Waiting(H),
    Done(Result<T, E>),
}

/// What a pull asks of its caller.
#[derive(Debug)]
pub enum PullStep<T, E> {
    /// A receive must be submitted to the transport; then the task suspends.
    Submit,
    /// A receive is outstanding: the task suspends.
    Suspend,
    /// The next item of the sequence.
    Yield(Result<T, E>),
}

/// Whether a receive is outstanding.
pub open spec fn in_flight<H, T, E>(c: RecvCell<H, T, E>) -> bool {
    c is Waiting
}

/// The cell after a pull by the task with handle `h`.
pub open spec fn after_pull<H, T, E>(c: RecvCell<H, T, E>, h: H) -> RecvCell<H, T, E> {
    match c {
        RecvCell::Idle => RecvCell::Waiting(h),
        RecvCell::Waiting(_) => RecvCell::Waiting(h),
        RecvCell::Done(_) => RecvCell::Idle,
    }
}

/// What a pull asks of its caller.
pub open spec fn pull_step<H, T, E>(c: RecvCell<H, T, E>) -> PullStep<T, E> {
    match c {
        RecvCell::Idle => PullStep::Submit,
        RecvCell::Waiting(_) => PullStep::Suspend,
        RecvCell::Done(res) => PullStep::Yield(res),
    }
}

/// The cell after the transport's callback reports `res`: only a waiting
/// cell takes it.
pub open spec fn after_complete<H, T, E>(c: RecvCell<H, T, E>, res: Result<T, E>) -> RecvCell<H, T, E> {
    match c {
        RecvCell::Waiting(_) => RecvCell::Done(res),
        _ => c,
    }
}

/// The cell after the transport refused a submitted receive: a waiting cell
/// is idle again, any other is left as it is.
pub open spec fn after_refused<H, T, E>(c: RecvCell<H, T, E>) -> RecvCell<H, T, E> {
    match c {
        RecvCell::Waiting(_) => RecvCell::Idle,
        _ => c,
    }
}

/// The handle that a completion resumes: the registered one, if a receive is
/// outstanding.
pub open spec fn resumed<H, T, E>(c: RecvCell<H, T, E>) -> Option<H> {
    match c {
        RecvCell::Waiting(h) => Some(h),
        _ => None,
    }
}

/// The cell after the pulls of the tasks `hs`, in order, with no completion
/// in between.
pub open spec fn after_pulls<H, T, E>(c: RecvCell<H, T, E>, hs: Seq<H>) -> RecvCell<H, T, E>
    decreases hs.len(),
{
    if hs.len() == 0 {
        c
    } else {
        after_pull(after_pulls(c, hs.drop_last()), hs.last())
    }
}

/// The cell after the completions `rs`, in order, with no pull in between.
pub open spec fn after_completions<H, T, E>(c: RecvCell<H, T, E>, rs: Seq<Result<T, E>>) -> RecvCell<H, T, E>
    decreases rs.len(),
{
    if rs.len() == 0 {
        c
    } else {
        after_complete(after_completions(c, rs.drop_last()), rs.last())
    }
}

/// At most one receive is in flight: a pull submits one only when none is,
/// and while one is, every further pull suspends on that same receive and
/// none submits another.
pub proof fn lemma_one_receive_in_flight<H, T, E>(c: RecvCell<H, T, E>, hs: Seq<H>)
    ensures
        pull_step(c) is Submit <==> c is Idle,
        pull_step(c) is Submit ==> !in_flight(c),
        in_flight(c) ==> in_flight(after_pulls(c, hs)),
        in_flight(c) ==> forall|i: int| 0 <= i < hs.len() ==> #[trigger] pull_step(after_pulls(c, hs.take(i))) is Suspend,
    decreases hs.len(),
{
    if hs.len() > 0 {
        lemma_one_receive_in_flight(c, hs.drop_last());
        if in_flight(c) {
            assert forall|i: int| 0 <= i < hs.len() implies #[trigger] pull_step(after_pulls(c, hs.take(i))) is Suspend by {
                if i < hs.len() - 1 {
                    assert(hs.take(i) == hs.drop_last().take(i));
                } else {
                    assert(hs.take(i) == hs.drop_last());
                }
            }
        }
    }
}

/// A task that suspends on a pull is resumed exactly once when the receive
/// completes: the completion resumes the task of the latest pull, and any
/// further completion before the next pull resumes nobody.
pub proof fn lemma_resumed_exactly_once<H, T, E>(c: RecvCell<H, T, E>, h: H, r: Result<T, E>, rs: Seq<Result<T, E>>)
    requires
        !(c is Done),
    ensures
        resumed(after_pull(c, h)) == Some(h),
        after_complete(after_pull(c, h), r) == RecvCell::<H, T, E>::Done(r),
        after_completions(after_complete(after_pull(c, h), r), rs) == RecvCell::<H, T, E>::Done(r),
        forall|i: int| 0 <= i < rs.len() ==> #[trigger] resumed(after_completions(after_complete(after_pull(c, h), r), rs.take(i))) is None,
    decreases rs.len(),
{
    let d = after_complete(after_pull(c, h), r);
    if rs.len() > 0 {
        lemma_resumed_exactly_once(c, h, r, rs.drop_last());
        assert forall|i: int| 0 <= i < rs.len() implies #[trigger] resumed(after_completions(d, rs.take(i))) is None by {
            if i < rs.len() - 1 {
                assert(rs.take(i) == rs.drop_last().take(i));
            } else {
                assert(rs.take(i) == rs.drop_last());
            }
        }
    }
}

impl<H, T, E> RecvCell<H, T, E> {
    /// A cell with nothing outstanding.
    pub fn new() -> (r: Self)
        ensures
            r is Idle,
    {
        RecvCell::Idle
    }

    /// A pull by the task with handle `h`. On an idle cell the task is
    /// registered and the caller must submit a receive; on a waiting cell the
    /// handle is replaced; on a completed cell the outcome is taken out and
    /// the cell is idle again.
    pub fn poll_next(&mut self, h: H) -> (r: PullStep<T, E>)
        ensures
            r == pull_step(*old(self)),
            *final(self) == after_pull(*old(self), h),
    {
        let mut c = RecvCell::Idle;
        std::mem::swap(self, &mut c);
        match c {
            RecvCell::Idle => {
                *self = RecvCell::Waiting(h);
                PullStep::Submit
            },
            RecvCell::Waiting(_) => {
                *self = RecvCell::Waiting(h);
                PullStep::Suspend
            },
            RecvCell::Done(res) => PullStep::Yield(res),
        }
    }

    /// Takes the transport's answer to the submission that a pull asked for.
    /// Accepted: the task suspends. Refused with `e`: the cell is idle again,
    /// so the next pull submits anew, and `e` is the next item.
    pub fn submitted(&mut self, sub: Result<(), E>) -> (r: Progress<Result<T, E>>)
        ensures
            sub is Ok ==> r is Pending && *final(self) == *old(self),
            sub is Err ==> r == Progress::<Result<T, E>>::Ready(Err(sub->Err_0)),
            sub is Err ==> *final(self) == after_refused(*old(self)),
    {
        match sub {
            Ok(()) => Progress::Pending,
            Err(e) => {
                if let RecvCell::Waiting(_) = self {
                    *self = RecvCell::Idle;
                }
                Progress::Ready(Err(e))
            },
        }
    }

    /// Completion of the outstanding receive, called from the transport's
    /// callback. Stores `res` and returns the handle to resume. `None` means
    /// that no receive was outstanding: the transport reported a completion
    /// that nobody waits for, which the caller must treat as fatal.
    pub fn complete(&mut self, res: Result<T, E>) -> (r: Option<H>)
        ensures
            r == resumed(*old(self)),
            *final(self) == after_complete(*old(self), res),
    {
        if let RecvCell::Waiting(_) = self {
            let mut c = RecvCell::Done(res);
            std::mem::swap(self, &mut c);
            match c {
                RecvCell::Waiting(h) => Some(h),
                _ => None,
            }
        } else {
            None
        }
    }
}

} // verus!
