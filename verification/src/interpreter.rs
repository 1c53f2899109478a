//! What is done on the interpreter while a node is brought up and run.
//!
//! Every function that touches the interpreter takes the token that stands
//! for its lock, so none can be called without holding it. What the
//! interpreter answers cannot be foretold: each function says what holds of
//! whatever came back, and the kind of error that a failure is reported as
//! is decided elsewhere, from the failure alone.

use std::fmt::Write;
use vstd::prelude::*;
use pyo3::types::{PyModule, PyTraceback, PyTuple};
use pyo3::{PyAny, PyErr, Python};
use crate::error::{Exception, Failure};
use crate::step::Resource;

verus! {

#[verifier::external_type_specification]
#[verifier::external_body]
pub struct ExPython<'py>(Python<'py>);

#[verifier::external_type_specification]
#[verifier::external_body]
pub struct ExPyAny(PyAny);

#[verifier::external_type_specification]
#[verifier::external_body]
pub struct ExPyErr(PyErr);

#[verifier::external_type_specification]
#[verifier::external_body]
pub struct ExPyTraceback(PyTraceback);

/// How many exceptions of a chain of causes are followed at most.
pub const CHAIN_LIMIT: usize = 16;

/// The method that makes an object something to wait for.
pub const AWAIT_METHOD: &'static str = "__await__";

/// What is said of a script that lacks the function to register with.
pub const NO_ENTRY_POINT: &'static str = "the script does not define its entry point";

/// What is said of a script that registers something that cannot be called.
pub const NOT_CALLABLE: &'static str = "what the script registered cannot be called";

/// What is said when a node is to be built from something else than the
/// four objects made for it.
pub const NOT_AN_ARGUMENT: &'static str = "a node is built from its context, configuration, inputs and outputs only";

/// `pyo3::prepare_freethreaded_python`: starts the interpreter unless it is
/// running.
#[verifier::external_body]
pub(crate) fn prepare_interpreter() {
    pyo3::prepare_freethreaded_python()
}

/// `pyo3::types::PyModule::from_code`: compiles the source and runs it as a
/// new module of the given name. Nothing is promised of the outcome.
#[verifier::external_body]
fn module_from_code<'py>(
    py: Python<'py>,
    source: &str,
    file_name: &str,
    module_name: &str,
) -> Result<&'py PyAny, PyErr> {
    Ok(PyModule::from_code(py, source, file_name, module_name)?)
}

/// `pyo3::Python::import`: the module of that name, imported if need be.
#[verifier::external_body]
fn import_module<'py>(py: Python<'py>, name: &str) -> Result<&'py PyAny, PyErr> {
    Ok(py.import(name)?)
}

/// `pyo3::PyAny::hasattr`: whether the object has an attribute of that name.
#[verifier::external_body]
fn has_attribute(object: &PyAny, name: &str) -> Result<bool, PyErr> {
    object.hasattr(name)
}

/// `pyo3::PyAny::is_callable`: whether the object can be called.
#[verifier::external_body]
fn is_callable(object: &PyAny) -> bool {
    object.is_callable()
}

/// `pyo3::PyAny::call1`: calls the object with the arguments given, by
/// position and in their order.
#[verifier::external_body]
fn call<'py>(py: Python<'py>, callable: &'py PyAny, arguments: &Vec<&'py PyAny>) -> Result<
    &'py PyAny,
    PyErr,
> {
    callable.call1(PyTuple::new(py, arguments.iter()))
}

/// `pyo3::PyAny::call_method1`: calls the object's method of that name with
/// the arguments given, by position and in their order.
#[verifier::external_body]
fn call_method<'py>(
    py: Python<'py>,
    object: &'py PyAny,
    name: &str,
    arguments: &Vec<&'py PyAny>,
) -> Result<&'py PyAny, PyErr> {
    object.call_method1(name, PyTuple::new(py, arguments.iter()))
}

/// `pyo3_asyncio::async_std::run_until_complete`, on what
/// `pyo3_asyncio::into_future_with_locals` makes of the awaitable for the
/// `pyo3_asyncio::TaskLocals` of the loop: schedules the awaitable on the
/// loop and blocks until the loop has driven it to its end. What it
/// evaluates to is dropped.
#[verifier::external_body]
fn run_until_complete(event_loop: &PyAny, awaitable: &PyAny) -> Result<(), PyErr> {
    let locals = pyo3_asyncio::TaskLocals::new(event_loop);
    let pending = pyo3_asyncio::into_future_with_locals(&locals, awaitable)?;
    pyo3_asyncio::async_std::run_until_complete(event_loop, pending)?;
    Ok(())
}

/// `PyErr`'s `Display`: the name of the exception's type and what the
/// exception says. Empty if they cannot be written.
#[verifier::external_body]
fn exception_text(error: &PyErr) -> String {
    let mut text = String::new();
    let _ = write!(text, "{}", error);
    text
}

/// `pyo3::PyErr::traceback`: the trace that came with the exception.
#[verifier::external_body]
fn exception_traceback<'py>(py: Python<'py>, error: &'py PyErr) -> Option<&'py PyTraceback> {
    error.traceback(py)
}

/// `pyo3::types::PyTraceback::format`: the trace as the interpreter prints
/// it.
#[verifier::external_body]
fn format_traceback(traceback: &PyTraceback) -> Result<String, PyErr> {
    traceback.format()
}

/// `pyo3::PyErr::cause`: the exception that this one was raised from.
#[verifier::external_body]
fn exception_cause<'py>(py: Python<'py>, error: &PyErr) -> Option<PyErr> {
    error.cause(py)
}

/// How many exceptions a record holds: the exception and its causes.
pub open spec fn chain_length(e: Exception) -> nat
    decreases e,
{
    match e.cause {
        Some(cause) => 1 + chain_length(*cause),
        None => 1,
    }
}

/// The trace that a record carries, given what the interpreter answered
/// when asked for it: the trace as it was written out, or nothing where the
/// exception came without one or it could not be written out.
pub open spec fn trace_of<E>(formatted: Option<Result<String, E>>) -> Seq<char> {
    match formatted {
        Some(Ok(trace)) => trace@,
        _ => Seq::empty(),
    }
}

/// Puts a record together out of what the interpreter answered: the
/// exception's text, what became of writing out its trace, and the record of
/// the exception it was raised from, if one was followed.
pub fn recorded<E>(
    text: String,
    formatted: Option<Result<String, E>>,
    cause: Option<Exception>,
) -> (e: Exception)
    ensures
        e.text@ == text@,
        e.trace@ == trace_of(formatted),
        match cause {
            Some(earlier) => e.cause == Some(Box::new(earlier)),
            None => e.cause is None,
        },
{
    let trace = match formatted {
        Some(Ok(trace)) => trace,
        _ => String::new(),
    };
    let cause = match cause {
        Some(earlier) => Some(Box::new(earlier)),
        None => None,
    };
    Exception { text, trace, cause }
}

/// Records an exception and at most `causes` of the exceptions that it was
/// raised from. What the record holds is the interpreter's to say; how it is
/// put together is [`recorded`]'s.
fn record<'py>(py: Python<'py>, error: &PyErr, causes: usize) -> (e: Exception)
    ensures
        chain_length(e) <= causes + 1,
    decreases causes,
{
    let text = exception_text(error);
    let formatted = match exception_traceback(py, error) {
        Some(traceback) => Some(format_traceback(traceback)),
        None => None,
    };
    let cause = if causes == 0 {
        None
    } else {
        match exception_cause(py, error) {
            Some(earlier) => Some(record(py, &earlier, causes - 1)),
            None => None,
        }
    };
    recorded(text, formatted, cause)
}

/// The record of an exception: its text, its trace where it has one, and
/// the same for the exceptions it was raised from, as far as the limit.
pub fn exception_of<'py>(py: Python<'py>, error: &PyErr) -> (e: Exception)
    ensures
        chain_length(e) <= CHAIN_LIMIT + 1,
{
    record(py, error, CHAIN_LIMIT)
}

/// What an answer of the interpreter comes to: what it gave, unchanged, or
/// the failure that records the exception it raised.
pub fn answered<'py, T>(py: Python<'py>, answer: Result<T, PyErr>) -> (outcome: Result<T, Failure>)
    ensures
        match answer {
            Ok(given) => outcome == Ok::<T, Failure>(given),
            Err(_) => outcome matches Err(Failure::Raised(e)) && chain_length(e) <= CHAIN_LIMIT
                + 1,
        },
{
    match answer {
        Ok(given) => Ok(given),
        Err(error) => Err(Failure::Raised(exception_of(py, &error))),
    }
}

/// Whether registering can go on, given whether the module has its entry
/// point: it can if it has, and the script is unusable if it has not.
pub fn entry_point_found(present: bool) -> (found: Result<(), Failure>)
    ensures
        match found {
            Ok(_) => present,
            Err(Failure::Unusable(why)) => !present && why@ == NO_ENTRY_POINT@,
            Err(_) => false,
        },
{
    if present {
        Ok(())
    } else {
        Err(Failure::Unusable(NO_ENTRY_POINT.to_owned()))
    }
}

/// What was registered, given whether it can be called: itself if it can,
/// and unusable if it cannot.
pub fn class_registered<T>(returned: T, callable: bool) -> (class: Result<T, Failure>)
    ensures
        match class {
            Ok(usable) => callable && usable == returned,
            Err(Failure::Unusable(why)) => !callable && why@ == NOT_CALLABLE@,
            Err(_) => false,
        },
{
    if callable {
        Ok(returned)
    } else {
        Err(Failure::Unusable(NOT_CALLABLE.to_owned()))
    }
}

/// Runs the script's source as a module of the given name. The only way to
/// fail is an exception.
pub fn load_script<'py>(py: Python<'py>, source: &str, file_name: &str, module_name: &str) -> (loaded:
    Result<&'py PyAny, Failure>)
    ensures
        loaded matches Err(failure) ==> failure is Raised,
{
    answered(py, module_from_code(py, source, file_name, module_name))
}

/// Asks the module for the node's class by calling its entry point with no
/// argument. It fails with an exception if the call raises, and as unusable
/// if the module has no such attribute or what comes back cannot be called.
pub fn register<'py>(py: Python<'py>, module: &'py PyAny, entry_point: &str) -> (registered: Result<
    &'py PyAny,
    Failure,
>)
    ensures
        match registered {
            Ok(_) => true,
            Err(Failure::Raised(_)) => true,
            Err(Failure::Unusable(why)) => why@ == NO_ENTRY_POINT@ || why@ == NOT_CALLABLE@,
            Err(Failure::Refused(_)) => false,
        },
{
    let present = match answered(py, has_attribute(module, entry_point)) {
        Ok(present) => present,
        Err(failure) => {
            return Err(failure);
        },
    };
    match entry_point_found(present) {
        Ok(_) => {},
        Err(failure) => {
            return Err(failure);
        },
    }
    let no_argument: Vec<&'py PyAny> = Vec::new();
    match answered(py, call_method(py, module, entry_point, &no_argument)) {
        Ok(returned) => class_registered(returned, is_callable(returned)),
        Err(failure) => Err(failure),
    }
}

/// The four objects that a node is built from.
pub struct Arguments<'py> {
    pub context: &'py PyAny,
    pub configuration: &'py PyAny,
    pub inputs: &'py PyAny,
    pub outputs: &'py PyAny,
}

impl<'py> Arguments<'py> {
    /// The object that a resource names, if it is one of the four.
    pub open spec fn named(self, resource: Resource) -> Option<&'py PyAny> {
        match resource {
            Resource::Context => Some(self.context),
            Resource::Configuration => Some(self.configuration),
            Resource::Inputs => Some(self.inputs),
            Resource::Outputs => Some(self.outputs),
            _ => None,
        }
    }

    /// The objects that `order` names, one for each, in that order; none if
    /// it names anything else than the four.
    pub fn positional(&self, order: &Vec<Resource>) -> (objects: Option<Vec<&'py PyAny>>)
        ensures
            match objects {
                Some(list) => list@.len() == order@.len() && forall|i: int|
                    0 <= i < order@.len() ==> self.named(order@[i]) == Some(#[trigger] list@[i]),
                None => exists|i: int| 0 <= i < order@.len() && self.named(order@[i]) is None,
            },
    {
        let mut list: Vec<&'py PyAny> = Vec::new();
        let mut at: usize = 0;
        while at < order.len()
            invariant
                at <= order.len(),
                list@.len() == at,
                forall|i: int| 0 <= i < at ==> self.named(order@[i]) == Some(#[trigger] list@[i]),
            decreases order.len() - at,
        {
            let object = match order[at] {
                Resource::Context => self.context,
                Resource::Configuration => self.configuration,
                Resource::Inputs => self.inputs,
                Resource::Outputs => self.outputs,
                _ => {
                    return None;
                },
            };
            list.push(object);
            at += 1;
        }
        Some(list)
    }
}

/// Builds the node: calls the class with the objects that `order` names, by
/// position and in that order. It fails with an exception if the call
/// raises, and as unusable if `order` names anything that is no argument.
pub fn construct<'py>(
    py: Python<'py>,
    class: &'py PyAny,
    arguments: &Arguments<'py>,
    order: &Vec<Resource>,
) -> (built: Result<&'py PyAny, Failure>)
    ensures
        match built {
            Ok(_) => forall|i: int| 0 <= i < order@.len() ==> arguments.named(order@[i]) is Some,
            Err(Failure::Raised(_)) => forall|i: int|
                0 <= i < order@.len() ==> arguments.named(order@[i]) is Some,
            Err(Failure::Unusable(why)) => why@ == NOT_AN_ARGUMENT@ && exists|i: int|
                0 <= i < order@.len() && arguments.named(order@[i]) is None,
            Err(Failure::Refused(_)) => false,
        },
{
    match arguments.positional(order) {
        Some(objects) => {
            assert forall|i: int| 0 <= i < order@.len() implies arguments.named(order@[i])
                is Some by {
                assert(arguments.named(order@[i]) == Some(objects@[i]));
            }
            match call(py, class, &objects) {
                Ok(node) => Ok(node),
                Err(e) => Err(Failure::Raised(exception_of(py, &e))),
            }
        },
        None => Err(Failure::Unusable(NOT_AN_ARGUMENT.to_owned())),
    }
}

/// The module that event loops are made with.
pub const LOOP_MODULE: &'static str = "asyncio";

/// The function of that module that makes an event loop.
pub const LOOP_MAKER: &'static str = "new_event_loop";

/// The function of that module that installs an event loop as the current
/// one.
pub const LOOP_INSTALLER: &'static str = "set_event_loop";

/// Makes a new event loop and installs it as the current one: what comes
/// back is the loop that was made, once it is installed. The only way to
/// fail is an exception.
pub fn create_event_loop<'py>(py: Python<'py>) -> (made: Result<&'py PyAny, Failure>)
    ensures
        made matches Err(failure) ==> failure is Raised,
{
    let asyncio = match answered(py, import_module(py, LOOP_MODULE)) {
        Ok(module) => module,
        Err(failure) => {
            return Err(failure);
        },
    };
    let no_argument: Vec<&'py PyAny> = Vec::new();
    let event_loop = match answered(py, call_method(py, asyncio, LOOP_MAKER, &no_argument)) {
        Ok(event_loop) => event_loop,
        Err(failure) => {
            return Err(failure);
        },
    };
    let mut the_loop: Vec<&'py PyAny> = Vec::new();
    the_loop.push(event_loop);
    match answered(py, call_method(py, asyncio, LOOP_INSTALLER, &the_loop)) {
        Ok(_) => Ok(event_loop),
        Err(failure) => Err(failure),
    }
}

/// What is left to wait for once the node's method has returned: what it
/// returned, if that is pending, and nothing if it is not. A method that
/// does not suspend leaves nothing, and its iteration is over when it
/// returns.
pub fn awaited<T>(returned: T, pending: bool) -> (left: Option<T>)
    ensures
        left == (if pending {
            Some(returned)
        } else {
            None::<T>
        }),
{
    if pending {
        Some(returned)
    } else {
        None
    }
}

/// Runs one iteration: calls the node's method with no argument and, if
/// what it returns is something to wait for, schedules that on the node's
/// event loop and blocks until the loop has driven it to its end. The only
/// way to fail is an exception; nothing is tried twice.
pub fn run_iteration<'py>(
    py: Python<'py>,
    user_object: &'py PyAny,
    event_loop: &'py PyAny,
    method: &str,
) -> (ran: Result<(), Failure>)
    ensures
        ran matches Err(failure) ==> failure is Raised,
{
    let no_argument: Vec<&'py PyAny> = Vec::new();
    let returned = match answered(py, call_method(py, user_object, method, &no_argument)) {
        Ok(returned) => returned,
        Err(failure) => {
            return Err(failure);
        },
    };
    let pending = match answered(py, has_attribute(returned, AWAIT_METHOD)) {
        Ok(pending) => pending,
        Err(failure) => {
            return Err(failure);
        },
    };
    match awaited(returned, pending) {
        Some(awaitable) => answered(py, run_until_complete(event_loop, awaitable)),
        None => Ok(()),
    }
}

} // verus!
