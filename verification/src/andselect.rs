use vstd::prelude::*;

use crate::sample::{PollOutcome, StreamEvent};

verus! {

/// A combinator that forwards a primary stream until a one-shot shutdown
/// stream produces: the shutdown item is emitted as the next and last output,
/// and the combined stream then ends, abandoning the primary stream. When
/// both are ready at once the shutdown wins, the safety-preferred policy.
pub struct AndSelect {
    pub done: bool,
}

/// Create the combinator; the shutdown stream has not produced yet.
pub fn new() -> (s: AndSelect)
    ensures
        !s.done,
{
    AndSelect { done: false }
}

/// One poll of the combinator, as a function of its latch and the two
/// underlying events: the new latch and the outcome. Once ended it stays
/// ended. A ready shutdown item is emitted and latches the end, and so does
/// the shutdown stream closing without an item or failing. Otherwise the
/// primary stream's item is forwarded, its end ends the combinator, and its
/// failure is propagated.
pub open spec fn select_step<T, E>(
    done: bool,
    primary: StreamEvent<T, E>,
    shutdown: StreamEvent<T, E>,
) -> (bool, PollOutcome<T, E>) {
    if done {
        (true, PollOutcome::End)
    } else {
        match shutdown {
            StreamEvent::Ready(x) => (true, PollOutcome::Item(x)),
            StreamEvent::Done => (true, PollOutcome::End),
            StreamEvent::Failed(e) => (true, PollOutcome::End),
            StreamEvent::NotReady => match primary {
                StreamEvent::Ready(x) => (false, PollOutcome::Item(x)),
                StreamEvent::Done => (true, PollOutcome::End),
                StreamEvent::NotReady => (false, PollOutcome::Pending),
                StreamEvent::Failed(e) => (false, PollOutcome::Error(e)),
            },
        }
    }
}

impl AndSelect {
    /// Poll once, handing in what the primary stream and the shutdown stream
    /// reported. After the shutdown item has been emitted, every further poll
    /// reports the end, whatever the primary stream does.
    pub fn poll<T, E>(&mut self, primary: StreamEvent<T, E>, shutdown: StreamEvent<T, E>) -> (out:
        PollOutcome<T, E>)
        ensures
            (final(self).done, out) == select_step(old(self).done, primary, shutdown),
            old(self).done ==> out is End,
    {
        if self.done {
            return PollOutcome::End;
        }
        match shutdown {
            StreamEvent::Ready(x) => {
                self.done = true;
                PollOutcome::Item(x)
            },
            StreamEvent::Done => {
                self.done = true;
                PollOutcome::End
            },
            StreamEvent::Failed(_) => {
                self.done = true;
                PollOutcome::End
            },
            StreamEvent::NotReady => match primary {
                StreamEvent::Ready(x) => PollOutcome::Item(x),
                StreamEvent::Done => {
                    self.done = true;
                    PollOutcome::End
                },
                StreamEvent::NotReady => PollOutcome::Pending,
                StreamEvent::Failed(e) => PollOutcome::Error(e),
            },
        }
    }
}

} // verus!
