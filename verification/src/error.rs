//! Failures of the interpreter, and the one error value that the host sees.

use vstd::prelude::*;
use vstd::string::StringExecFns;
use crate::text::{lemma_occurs_between, lemma_occurs_transitive, occurs_in};

verus! {

/// What went wrong, as the host tells failures apart.
#[derive(Clone, Copy, Debug, PartialEq, Eq, Structural)]
pub enum ErrorKind {
    /// The interpreter's runtime library could not be found or opened.
    Load,
    /// The script could not be read.
    Io,
    /// The interpreter failed to compile or to run the script.
    Script,
    /// A value has a shape that cannot cross the boundary.
    Conversion,
    /// The script registered nothing usable, or its node could not be built.
    Registration,
    /// The node's iteration raised.
    Iteration,
}

/// The error handed to the host: its kind and a description for people.
#[derive(Debug, PartialEq, Eq)]
pub struct HostError {
    pub kind: ErrorKind,
    pub description: String,
}

/// An exception as the interpreter reports it: its text, the trace that came
/// with it (empty if none), and the exception that it was raised from.
#[derive(Debug, PartialEq, Eq)]
pub struct Exception {
    pub text: String,
    pub trace: String,
    pub cause: Option<Box<Exception>>,
}

/// The description of an exception: its text and trace, then the same for
/// each exception down its chain of causes.
pub open spec fn description_of(e: Exception) -> Seq<char>
    decreases e,
{
    let own = "Error: "@ + e.text@ + "\nTraceback: "@ + e.trace@;
    match e.cause {
        Some(cause) => own + "\nCaused by: "@ + description_of(*cause),
        None => own,
    }
}

/// The exception `depth` levels down the chain of causes, `e` itself at 0.
pub open spec fn cause_at(e: Exception, depth: nat) -> Option<Exception>
    decreases depth,
{
    if depth == 0 {
        Some(e)
    } else {
        match e.cause {
            Some(cause) => cause_at(*cause, (depth - 1) as nat),
            None => None,
        }
    }
}

/// No exception goes missing: the text and the trace of every exception in
/// the chain stand in the description.
pub proof fn lemma_description_keeps_chain(e: Exception, depth: nat)
    requires
        cause_at(e, depth) is Some,
    ensures
        occurs_in(cause_at(e, depth)->0.text@, description_of(e)),
        occurs_in(cause_at(e, depth)->0.trace@, description_of(e)),
    decreases depth,
{
    let head = "Error: "@ + e.text@ + "\nTraceback: "@;
    let own = head + e.trace@;
    if depth == 0 {
        match e.cause {
            Some(cause) => {
                let tail = "\nCaused by: "@ + description_of(*cause);
                assert(description_of(e) =~= "Error: "@ + e.text@ + ("\nTraceback: "@ + e.trace@
                    + tail));
                lemma_occurs_between("Error: "@, e.text@, "\nTraceback: "@ + e.trace@ + tail);
                assert(description_of(e) =~= head + e.trace@ + tail);
                lemma_occurs_between(head, e.trace@, tail);
            },
            None => {
                assert(description_of(e) =~= "Error: "@ + e.text@ + ("\nTraceback: "@ + e.trace@));
                lemma_occurs_between("Error: "@, e.text@, "\nTraceback: "@ + e.trace@);
                assert(description_of(e) =~= head + e.trace@ + Seq::<char>::empty());
                lemma_occurs_between(head, e.trace@, Seq::<char>::empty());
            },
        }
    } else {
        let cause = *e.cause->0;
        let inner = description_of(cause);
        lemma_description_keeps_chain(cause, (depth - 1) as nat);
        assert(description_of(e) =~= (own + "\nCaused by: "@) + inner + Seq::<char>::empty());
        lemma_occurs_between(own + "\nCaused by: "@, inner, Seq::<char>::empty());
        lemma_occurs_transitive(cause_at(e, depth)->0.text@, inner, description_of(e));
        lemma_occurs_transitive(cause_at(e, depth)->0.trace@, inner, description_of(e));
    }
}

/// How an action went wrong.
#[derive(Debug, PartialEq, Eq)]
pub enum Failure {
    /// The system refused, for the reason given: a library was not opened, a
    /// file was not read.
    Refused(String),
    /// The interpreter raised an exception.
    Raised(Exception),
    /// The script answered, but with nothing that can be used, as the text
    /// says: it has no entry point, or what it registered cannot be called.
    Unusable(String),
}

/// What a failure says of itself.
pub open spec fn reason_of(failure: Failure) -> Seq<char> {
    match failure {
        Failure::Refused(reason) => reason@,
        Failure::Raised(exception) => description_of(exception),
        Failure::Unusable(reason) => reason@,
    }
}

impl HostError {
    /// An error of the given kind with the given description.
    pub fn new(kind: ErrorKind, description: &str) -> (error: HostError)
        ensures
            error.kind == kind,
            error.description@ == description@,
    {
        HostError { kind, description: description.to_owned() }
    }

    /// The error of the given kind for a failure: it says what the failure
    /// says of itself.
    pub fn of(kind: ErrorKind, failure: &Failure) -> (error: HostError)
        ensures
            error.kind == kind,
            error.description@ == reason_of(*failure),
    {
        match failure {
            Failure::Refused(reason) => HostError::new(kind, reason.as_str()),
            Failure::Raised(exception) => translate(kind, exception),
            Failure::Unusable(reason) => HostError::new(kind, reason.as_str()),
        }
    }
}

/// Writes out an exception and its chain of causes.
pub fn describe(e: &Exception) -> (description: String)
    ensures
        description@ == description_of(*e),
    decreases e,
{
    let mut description = String::from_str("Error: ");
    description.append(e.text.as_str());
    description.append("\nTraceback: ");
    description.append(e.trace.as_str());
    match &e.cause {
        Some(cause) => {
            description.append("\nCaused by: ");
            let inner = describe(cause);
            description.append(inner.as_str());
        },
        None => {},
    }
    description
}

/// Turns an exception of the interpreter into the host's error of the given
/// kind. Nothing of the exception is left out of the description.
pub fn translate(kind: ErrorKind, e: &Exception) -> (error: HostError)
    ensures
        error.kind == kind,
        error.description@ == description_of(*e),
{
    HostError { kind, description: describe(e) }
}

} // verus!
