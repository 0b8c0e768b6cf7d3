//! Procedures: work that goes on by asking the world outside and waiting for
//! its reply.
use vstd::prelude::*;

verus! {

/// A step of some work. Whoever drives the work does what the step asks for
/// and hands the reply to `resume`, which gives the next step.
pub trait Procedure: Sized {
    type Reply;

    /// Whether `reply` answers what this step asks for.
    spec fn answered_by(self, reply: Self::Reply) -> bool;

    /// Whether the work goes on with `next` after `reply`.
    spec fn leads_to(self, reply: Self::Reply, next: Self) -> bool;

    /// Whether nothing is left to do.
    spec fn is_done(self) -> bool;

    /// Whether `reply` answers what this step asks for.
    fn accepts(&self, reply: &Self::Reply) -> (r: bool)
        ensures
            r == self.answered_by(*reply),
    ;

    /// The step after `reply`.
    fn resume(self, reply: Self::Reply) -> (next: Self)
        requires
            self.answered_by(reply),
        ensures
            self.leads_to(reply, next),
    ;

    /// Whether nothing is left to do.
    fn done(&self) -> (r: bool)
        ensures
            r == self.is_done(),
    ;
}

/// Whether the work can pass through `steps` on these replies.
pub open spec fn is_run<P: Procedure>(steps: Seq<P>, replies: Seq<P::Reply>) -> bool {
    &&& steps.len() == replies.len() + 1
    &&& forall|i: int|
        #![trigger replies[i]]
        0 <= i < replies.len() ==> steps[i].answered_by(replies[i]) && steps[i].leads_to(
            replies[i],
            steps[i + 1],
        )
}

/// A procedure that comes to an end, whatever the replies are.
pub trait Bounded: Procedure {
    /// How many more replies the work can take.
    spec fn remaining(self) -> nat;

    /// Each reply brings the end nearer.
    proof fn lemma_remaining_decreases(self, reply: Self::Reply, next: Self)
        requires
            self.answered_by(reply),
            self.leads_to(reply, next),
        ensures
            next.remaining() < self.remaining(),
    ;
}

/// A bounded procedure takes no more replies than remained at its first step.
pub proof fn law_run_is_bounded<P: Bounded>(steps: Seq<P>, replies: Seq<P::Reply>)
    requires
        is_run(steps, replies),
    ensures
        replies.len() + steps.last().remaining() <= steps[0].remaining(),
    decreases replies.len(),
{
    if replies.len() > 0 {
        let shorter = steps.drop_last();
        let earlier = replies.drop_last();
        assert forall|i: int| #![trigger earlier[i]] 0 <= i < earlier.len() implies
            shorter[i].answered_by(earlier[i]) && shorter[i].leads_to(earlier[i], shorter[i + 1])
        by {
            assert(earlier[i] == replies[i]);
        }
        law_run_is_bounded(shorter, earlier);
        let last = replies.len() - 1;
        assert(steps[last].answered_by(replies[last]));
        steps[last].lemma_remaining_decreases(replies[last], steps[last + 1]);
    }
}

} // verus!
