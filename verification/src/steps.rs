//! The calls a write request is made of, taken one at a time.
//!
//! Whoever carries out a write request makes one call, reports how it was
//! answered, and is told what comes next: another call, or the result of the
//! whole request.

use vstd::prelude::*;
use crate::request::WriteRequest;

verus! {

/// One call on behalf of a write request.
#[derive(Clone, Copy, Debug, PartialEq, Eq, Structural)]
pub enum Step {
    /// Open the file as the request says.
    Open,
    /// Write every byte of the request through the handle.
    Write,
    /// Flush the handle.
    Flush,
}

/// What comes after a call has been answered.
#[derive(Debug, PartialEq, Eq)]
pub enum Next<E> {
    /// Make this call.
    Take(Step),
    /// Make no further call; this is the result of the request.
    Finish(Result<(), E>),
}

/// The call that follows `taken` once it has gone through, if one does: the
/// write follows the open, and the flush follows the write where a flush is
/// asked for.
pub open spec fn following(flush: bool, taken: Step) -> Option<Step> {
    match taken {
        Step::Open => Some(Step::Write),
        Step::Write => if flush {
            Some(Step::Flush)
        } else {
            None
        },
        Step::Flush => None,
    }
}

/// What comes after `taken` has been answered. A failure ends the request
/// then and there, and is its result, unchanged.
pub open spec fn next_of<E>(flush: bool, taken: Step, answer: Result<(), E>) -> Next<E> {
    match answer {
        Err(failure) => Next::Finish(Err(failure)),
        Ok(_) => match following(flush, taken) {
            Some(step) => Next::Take(step),
            None => Next::Finish(Ok(())),
        },
    }
}

/// How many calls can still follow `step`.
pub open spec fn calls_left(step: Step) -> nat {
    match step {
        Step::Open => 2,
        Step::Write => 1,
        Step::Flush => 0,
    }
}

/// The result of a request that goes on from `step`, where `answers` tells
/// how each call is answered.
pub open spec fn outcome_from<E>(flush: bool, step: Step, answers: spec_fn(Step) -> Result<(), E>)
    -> Result<(), E>
    decreases calls_left(step),
{
    match next_of(flush, step, answers(step)) {
        Next::Take(then) => outcome_from(flush, then, answers),
        Next::Finish(result) => result,
    }
}

impl WriteRequest {
    /// The call a request starts with.
    pub fn first_step(&self) -> (step: Step)
        ensures
            step == Step::Open,
    {
        Step::Open
    }

    /// What comes after `taken` has been answered with `answer`.
    pub fn next_step<E>(&self, taken: Step, answer: Result<(), E>) -> (next: Next<E>)
        ensures
            next == next_of(self.flush, taken, answer),
            next matches Next::Take(then) ==> calls_left(then) < calls_left(taken),
    {
        match answer {
            Err(failure) => Next::Finish(Err(failure)),
            Ok(_) => match taken {
                Step::Open => Next::Take(Step::Write),
                Step::Write => if self.flush {
                    Next::Take(Step::Flush)
                } else {
                    Next::Finish(Ok(()))
                },
                Step::Flush => Next::Finish(Ok(())),
            },
        }
    }
}

/// A request is answered with the failure of the first call that fails, and
/// no call is made after it; it succeeds when the open, the write and, where
/// one is asked for, the flush all go through.
pub proof fn first_failure_is_the_result<E>(flush: bool, answers: spec_fn(Step) -> Result<(), E>)
    ensures
        outcome_from(flush, Step::Open, answers) == match answers(Step::Open) {
            Err(failure) => Err::<(), E>(failure),
            Ok(_) => match answers(Step::Write) {
                Err(failure) => Err(failure),
                Ok(_) => if flush {
                    match answers(Step::Flush) {
                        Err(failure) => Err(failure),
                        Ok(_) => Ok(()),
                    }
                } else {
                    Ok(())
                },
            },
        },
{
    reveal_with_fuel(outcome_from, 4);
}

} // verus!
