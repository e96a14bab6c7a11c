use crate::encoder::CommandBuffer;
use vstd::prelude::*;

verus! {

/// A monotonically increasing completion counter.  Each submission is
/// stamped with the post-submission counter value; a stamped value counts as
/// complete once the device-observed counter has reached it.
pub struct Fence {
    /// The last value the queue signaled (advanced at submission
    /// acceptance, never before).
    pub value: u64,
}

/// One accepted submission waiting for the backend to finish it.
pub struct Submission {
    /// The submission's place in the order of all submissions on the queue.
    pub index: u64,
    /// The fence value this submission signals when it completes.
    pub signal_value: u64,
    /// Externally tracked completion values this submission was asked to
    /// wait for.  Values at or below the observed counter contribute
    /// ordering metadata only; they never block and never error.
    pub wait_values: Vec<u64>,
    /// The command buffers, in submission order.
    pub buffers: Vec<CommandBuffer>,
}

/// The single ordered submission channel of a device.  Command buffers
/// submitted in call order complete in that order, and fence values are
/// stamped strictly increasing, never skipped.
pub struct Queue {
    /// Accepted submissions the backend has not finished yet, oldest first.
    pub pending: Vec<Submission>,
    /// The highest fence value stamped onto an accepted submission.
    pub last_signaled: u64,
    /// The highest fence value the device has observed as complete.
    pub observed: u64,
    /// The index the next accepted submission will carry.
    pub next_submission_index: u64,
}

impl Queue {
    /// The queue's invariant: completion never runs ahead of submission,
    /// the pending window signals the contiguous values between the two
    /// counters, and submission indexes increase strictly.
    pub open spec fn wf(self) -> bool {
        &&& self.observed <= self.last_signaled
        &&& self.last_signaled == self.observed + self.pending@.len()
        &&& forall|i: int|
            0 <= i < self.pending@.len() ==> (#[trigger] self.pending@[i].signal_value)
                == self.observed + i + 1
        &&& forall|i: int|
            0 <= i < self.pending@.len() ==> (#[trigger] self.pending@[i].index)
                < self.next_submission_index
        &&& forall|i: int, j: int|
            0 <= i < j < self.pending@.len() ==> self.pending@[i].index < self.pending@[j].index
    }

    /// A fresh queue with both counters at zero and nothing outstanding.
    pub fn new() -> (q: Queue)
        ensures
            q.wf(),
            q.pending@.len() == 0,
            q.last_signaled == 0,
            q.observed == 0,
            q.next_submission_index == 0,
    {
        Queue { pending: Vec::new(), last_signaled: 0, observed: 0, next_submission_index: 0 }
    }
}

/// Law: in a well-formed queue the signaled counter stands exactly one unit
/// above the observed counter for each outstanding submission.  Each
/// accepted submission raises the signaled counter by one, and a drained
/// poll raises the observed counter to meet it; hence after any run of
/// accepted submissions followed by a completing poll, the observed counter
/// stands exactly that many units above where it started.
pub proof fn lemma_counter_gap(q: Queue)
    requires
        q.wf(),
    ensures
        q.last_signaled == q.observed + q.pending@.len(),
        q.pending@.len() == 0 ==> q.last_signaled == q.observed,
{
}

} // verus!
