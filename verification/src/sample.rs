use vstd::prelude::*;

verus! {

/// What one non-blocking poll of an underlying stream reported: a ready item,
/// the end of the stream, nothing yet, or a failure.
pub enum StreamEvent<T, E> {
    Ready(T),
    Done,
    NotReady,
    Failed(E),
}

/// What one poll of a combinator yields: an emitted item, the end of the
/// combined stream, nothing yet, or a propagated failure.
pub enum PollOutcome<T, E> {
    Item(T),
    End,
    Pending,
    Error(E),
}

/// An adapter that emits the latest value seen from a value stream whenever
/// the trigger stream produces, decoupling the two rates: triggers re-emit
/// the cached value, and values arriving between triggers only replace it.
pub struct Sample<T> {
    pub current: Option<T>,
}

/// Create the adapter; no value has been cached yet.
pub fn new<T: Copy>() -> (s: Sample<T>)
    ensures
        s.current is None,
{
    Sample { current: None }
}

/// The cached value after the value stream's event is taken in: a ready item
/// replaces the cache, anything else leaves it.
pub open spec fn next_current<T, E>(cur: Option<T>, v: StreamEvent<T, E>) -> Option<T> {
    match v {
        StreamEvent::Ready(x) => Some(x),
        _ => cur,
    }
}

/// One poll of the adapter, as a function of the cached value and the two
/// underlying events: the new cache and the outcome. A failure of the value
/// stream is propagated as the adapter's own failure; the trigger stream
/// ending or failing ends the adapter; a trigger emits the cached value, or
/// nothing yet when no value has been seen; no trigger means nothing yet.
pub open spec fn sample_step<T, E>(
    cur: Option<T>,
    v: StreamEvent<T, E>,
    g: StreamEvent<(), E>,
) -> (Option<T>, PollOutcome<T, E>) {
    match v {
        StreamEvent::Failed(e) => (cur, PollOutcome::Error(e)),
        _ => {
            let c = next_current(cur, v);
            let out = match g {
                StreamEvent::Ready(u) => match c {
                    Some(x) => PollOutcome::Item(x),
                    None => PollOutcome::Pending,
                },
                StreamEvent::Done => PollOutcome::End,
                StreamEvent::NotReady => PollOutcome::Pending,
                StreamEvent::Failed(e) => PollOutcome::End,
            };
            (c, out)
        },
    }
}

impl<T: Copy> Sample<T> {
    /// Poll once, handing in what the value stream `v` and the trigger stream
    /// `g` reported. The caller polls `v` first and, when `v` failed, passes
    /// `g` as `NotReady` without polling it.
    pub fn poll<E>(&mut self, v: StreamEvent<T, E>, g: StreamEvent<(), E>) -> (out: PollOutcome<
        T,
        E,
    >)
        ensures
            (final(self).current, out) == sample_step(old(self).current, v, g),
            (old(self).current is None && v is Done && (g matches StreamEvent::Ready(_))) ==> out
                is Pending,
    {
        match v {
            StreamEvent::Failed(e) => PollOutcome::Error(e),
            StreamEvent::Ready(x) => {
                self.current = Some(x);
                self.emit(g)
            },
            _ => self.emit(g),
        }
    }

    /// React to the trigger stream's event alone, emitting a copy of the
    /// cached value on a trigger.
    fn emit<E>(&mut self, g: StreamEvent<(), E>) -> (out: PollOutcome<T, E>)
        ensures
            *final(self) == *old(self),
            out == (match g {
                StreamEvent::Ready(u) => match old(self).current {
                    Some(x) => PollOutcome::<T, E>::Item(x),
                    None => PollOutcome::<T, E>::Pending,
                },
                StreamEvent::Done => PollOutcome::<T, E>::End,
                StreamEvent::NotReady => PollOutcome::<T, E>::Pending,
                StreamEvent::Failed(e) => PollOutcome::<T, E>::End,
            }),
    {
        match g {
            StreamEvent::Ready(_) => match self.current {
                Some(x) => PollOutcome::Item(x),
                None => PollOutcome::Pending,
            },
            StreamEvent::Done => PollOutcome::End,
            StreamEvent::NotReady => PollOutcome::Pending,
            StreamEvent::Failed(_) => PollOutcome::End,
        }
    }
}

} // verus!
