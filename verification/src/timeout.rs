//! The decision of a future raced against a timer.

use vstd::prelude::*;

verus! {

/// The outcome of polling a future with a timeout.
#[derive(Debug)]
pub enum TimeoutPoll<T> {
    /// Finished: with the future's output, or `None` when the timer fired
    /// first.
    Ready(Option<T>),
    Pending,
}

/// The future's output wins; without it a fired timer ends the wait with
/// `None`; otherwise the wait goes on.
pub fn timeout_poll<T>(future_output: Option<T>, timer_fired: bool) -> (r: TimeoutPoll<T>)
    ensures
        match future_output {
            Some(v) => r == TimeoutPoll::Ready(Some(v)),
            None => if timer_fired {
                r == TimeoutPoll::<T>::Ready(None)
            } else {
                r == TimeoutPoll::<T>::Pending
            },
        },
{
    match future_output {
        Some(v) => TimeoutPoll::Ready(Some(v)),
        None => if timer_fired {
            TimeoutPoll::Ready(None)
        } else {
            TimeoutPoll::Pending
        },
    }
}

} // verus!
