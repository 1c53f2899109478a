//! A node that is up, and the one iteration it runs at a time.

use vstd::prelude::*;
use pyo3::{PyAny, Python};
use crate::error::{reason_of, ErrorKind, Failure, HostError};
use crate::interpreter::run_iteration;

verus! {

/// The method of the node that is called once for each iteration.
pub const ITERATION_METHOD: &'static str = "iteration";

/// A node that is up. It is the same from one iteration to the next: its
/// user object and its event loop are made once, when it is brought up, and
/// nothing here asks for them to be made again.
///
/// An iteration is run through an exclusive reference to the node, so two
/// iterations of one node cannot overlap: whoever asks for the second while
/// the first runs has to wait for the reference, and then runs. None is
/// ever turned away.
#[derive(Debug, PartialEq, Eq)]
pub struct Node {
    /// The path of the script that the node runs.
    pub script: String,
}

/// What the host is told of an iteration, given how it went on the
/// interpreter: unit if the node's method came to its end, the error of kind
/// `Iteration` that says what the failure says if it did not.
pub fn concluded(outcome: Result<(), Failure>) -> (result: Result<(), HostError>)
    ensures
        match outcome {
            Ok(_) => result is Ok,
            Err(failure) => result matches Err(e) && e.kind == ErrorKind::Iteration
                && e.description@ == reason_of(failure),
        },
{
    match outcome {
        Ok(_) => Ok(()),
        Err(failure) => Err(HostError::of(ErrorKind::Iteration, &failure)),
    }
}

impl Node {
    /// Runs one iteration of the node on the interpreter, from beginning to
    /// end: its method is called once, on the node's own user object, and
    /// what it leaves pending is driven on the node's own event loop.
    ///
    /// It always runs. The answer is unit, or the error of kind `Iteration`
    /// that describes the exception raised; nothing is tried again, and the
    /// node is as it was.
    pub fn iterate<'py>(
        &mut self,
        py: Python<'py>,
        user_object: &'py PyAny,
        event_loop: &'py PyAny,
    ) -> (result: Result<(), HostError>)
        ensures
            final(self).script@ == old(self).script@,
            result matches Err(e) ==> e.kind == ErrorKind::Iteration && exists|failure: Failure|
                failure is Raised && e.description@ == #[trigger] reason_of(failure),
    {
        let outcome = run_iteration(py, user_object, event_loop, ITERATION_METHOD);
        concluded(outcome)
    }
}

} // verus!
