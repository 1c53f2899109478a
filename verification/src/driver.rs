//! The steps that need nothing but the interpreter: starting it, and then,
//! one after the other, running the script, registering, building the node
//! and making its event loop. The order is the run's; here each thing asked
//! is done on the interpreter and its outcome handed back to the run.

use vstd::prelude::*;
use pyo3::{PyAny, Python};
use crate::error::{ErrorKind, Failure};
use crate::interpreter::{
    construct, create_event_loop, load_script, prepare_interpreter, register, Arguments,
};
use crate::lifecycle::{
    asks, kept, kind_of, next_phase, text_of, Action, Initialization, Phase,
};
use crate::step::{held_before, Resource, Step};

verus! {

/// Starts the interpreter if that is what the run asks, and tells the run
/// that it is done; the answer is what the run asks next. Anything else that
/// is asked is handed back as it is. Starting an interpreter that is running
/// does nothing, and nothing here can fail.
pub fn bootstrap(run: Initialization, action: Action) -> (end: (Initialization, Action))
    ensures
        end.0.runtime == run.runtime,
        end.0.configuration@ == run.configuration@,
        action is BootstrapInterpreter ==> end.0.phase == next_phase(
            run.phase,
            run.configuration@,
            Ok(()),
        ),
        (action is BootstrapInterpreter && run.phase == Phase::At(Step::Bootstrap)) ==> end.0.phase
            == Phase::At(Step::ConvertContext) && end.1 is ConvertContext,
        !(action is BootstrapInterpreter) ==> end.0.phase == run.phase && end.1 == action,
{
    match action {
        Action::BootstrapInterpreter => {
            prepare_interpreter();
            run.advance(Ok(()))
        },
        _ => (run, action),
    }
}

/// What is said when something is asked for before what it needs is there.
pub const OUT_OF_TURN: &'static str = "asked for out of turn";

/// The interpreter's objects that the steps taken here leave behind.
pub struct Handles<'py> {
    pub module: Option<&'py PyAny>,
    pub class: Option<&'py PyAny>,
    pub user_object: Option<&'py PyAny>,
    pub event_loop: Option<&'py PyAny>,
}

impl Action {
    /// Whether the action is done on the interpreter with nothing but what
    /// the interpreter holds.
    pub open spec fn is_for_interpreter(self) -> bool {
        self is ExecuteScript || self is CallRegister || self is Construct || self
            is CreateEventLoop
    }

    /// Whether the action is one of the four that are done here.
    pub fn for_interpreter(&self) -> (yes: bool)
        ensures
            yes == self.is_for_interpreter(),
    {
        match self {
            Action::ExecuteScript { .. } => true,
            Action::CallRegister { .. } => true,
            Action::Construct { .. } => true,
            Action::CreateEventLoop => true,
            _ => false,
        }
    }
}

/// Whether the error and the list of what to let go are those of a failure
/// at the step where the script is run, or at a later one.
pub open spec fn failed_on_interpreter(
    kind: ErrorKind,
    description: Seq<char>,
    release: Seq<Resource>,
) -> bool {
    exists|step: Step, failure: Failure|
        Step::ExecuteScript.position() <= step.position() && kind == #[trigger] kind_of(
            step,
            failure,
        ) && description == text_of(step, failure) && release == held_before(step).reverse()
}

/// The steps that are still to come, the one awaited among them.
pub open spec fn remaining(phase: Phase) -> nat {
    match phase {
        Phase::At(step) => (11 - step.position()) as nat,
        _ => 0,
    }
}

/// What must be there before `step` is taken, of what the steps taken here
/// leave behind.
pub open spec fn ready_for<'py>(step: Step, handles: Handles<'py>) -> bool {
    match step {
        Step::Register => handles.module is Some,
        Step::Construct => handles.module is Some && handles.class is Some,
        Step::CreateEventLoop => handles.module is Some && handles.class is Some
            && handles.user_object is Some,
        _ => true,
    }
}

/// How the handles stand once `action` has been done with success: what the
/// action leaves is there, and nothing else has changed.
pub open spec fn left_by<'py>(action: Action, before: Handles<'py>, after: Handles<'py>) -> bool {
    match action {
        Action::ExecuteScript { .. } => after.module is Some && after == (Handles {
            module: after.module,
            ..before
        }),
        Action::CallRegister { .. } => after.class is Some && after == (Handles {
            class: after.class,
            ..before
        }),
        Action::Construct { .. } => after.user_object is Some && after == (Handles {
            user_object: after.user_object,
            ..before
        }),
        Action::CreateEventLoop => after.event_loop is Some && after == (Handles {
            event_loop: after.event_loop,
            ..before
        }),
        _ => after == before,
    }
}

/// Does on the interpreter what `action` asks and keeps what it leaves.
fn perform<'py>(
    py: Python<'py>,
    action: &Action,
    source: &str,
    arguments: &Arguments<'py>,
    handles: &mut Handles<'py>,
) -> (outcome: Result<(), Failure>)
    ensures
        outcome is Ok ==> left_by(*action, *old(handles), *final(handles)),
        outcome is Err ==> *final(handles) == *old(handles),
        outcome matches Err(failure) ==> match *action {
            Action::ExecuteScript { .. } | Action::CreateEventLoop => failure is Raised,
            _ => !(failure is Refused),
        },
{
    match action {
        Action::ExecuteScript { file_name, module } => {
            match load_script(py, source, file_name.as_str(), module.as_str()) {
                Ok(loaded) => {
                    handles.module = Some(loaded);
                    Ok(())
                },
                Err(failure) => Err(failure),
            }
        },
        Action::CallRegister { entry_point } => match handles.module {
            Some(module) => match register(py, module, entry_point.as_str()) {
                Ok(class) => {
                    handles.class = Some(class);
                    Ok(())
                },
                Err(failure) => Err(failure),
            },
            None => Err(Failure::Unusable(OUT_OF_TURN.to_owned())),
        },
        Action::Construct { arguments: order } => match handles.class {
            Some(class) => match construct(py, class, arguments, order) {
                Ok(node) => {
                    handles.user_object = Some(node);
                    Ok(())
                },
                Err(failure) => Err(failure),
            },
            None => Err(Failure::Unusable(OUT_OF_TURN.to_owned())),
        },
        Action::CreateEventLoop => match create_event_loop(py) {
            Ok(event_loop) => {
                handles.event_loop = Some(event_loop);
                Ok(())
            },
            Err(failure) => Err(failure),
        },
        _ => Ok(()),
    }
}

/// Takes a run through the steps that are the interpreter's alone. Given a
/// run and what it asks, it does what is asked as long as that is for the
/// interpreter, hands each outcome to the run, and stops at the first thing
/// asked that is not. `source` is the script's source, `arguments` the
/// objects that the node is built from.
///
/// For a run that awaits the script being run, and that asks for it, the
/// end is one of two. Either the node is up: the run is `Ready`, it asks to
/// assemble the node, and the module, the node's object and its event loop
/// are there. Or the run has failed at one of the four steps, with a script
/// or a registration error, and asks to let go what the steps before that
/// one left; no event loop is left behind then.
pub fn drive<'py>(
    py: Python<'py>,
    run: Initialization,
    action: Action,
    source: &str,
    arguments: &Arguments<'py>,
) -> (end: (Initialization, Action, Handles<'py>))
    ensures
        !end.1.is_for_interpreter(),
        end.0.runtime == run.runtime,
        end.0.configuration@ == run.configuration@,
        !action.is_for_interpreter() ==> end.0.phase == run.phase,
        (run.phase == Phase::At(Step::ExecuteScript) && asks(
            Step::ExecuteScript,
            run.runtime,
            run.configuration@,
            action,
        )) ==> match end.1 {
            Action::Assemble { keep } => end.0.phase == Phase::Ready && keep@ == kept()
                && end.2.module is Some && end.2.user_object is Some && end.2.event_loop is Some,
            Action::Abort { error, release } => end.0.phase == Phase::Failed(error.kind) && (
            error.kind == ErrorKind::Script || error.kind == ErrorKind::Registration)
                && failed_on_interpreter(error.kind, error.description@, release@)
                && end.2.event_loop is None,
            _ => false,
        },
{
    let ghost runtime = run.runtime;
    let ghost configuration = run.configuration@;
    let ghost from_the_script = run.phase == Phase::At(Step::ExecuteScript) && asks(
        Step::ExecuteScript,
        runtime,
        configuration,
        action,
    );
    let ghost began = run.phase;
    let ghost asked_first = action.is_for_interpreter();
    let mut handles = Handles { module: None, class: None, user_object: None, event_loop: None };
    let mut run = run;
    let mut action = action;
    while action.for_interpreter()
        invariant
            run.runtime == runtime,
            run.configuration@ == configuration,
            !asked_first ==> run.phase == began && !action.is_for_interpreter(),
            from_the_script ==> match run.phase {
                Phase::At(step) => Step::ExecuteScript.position() <= step.position() && asks(
                    step,
                    runtime,
                    configuration,
                    action,
                ) && ready_for(step, handles) && handles.event_loop is None,
                Phase::Ready => action matches Action::Assemble { keep } && keep@ == kept()
                    && handles.module is Some && handles.user_object is Some && handles.event_loop
                    is Some,
                Phase::Failed(kind) => action matches Action::Abort { error, release }
                    && error.kind == kind && (kind == ErrorKind::Script || kind
                    == ErrorKind::Registration) && failed_on_interpreter(
                    kind,
                    error.description@,
                    release@,
                ) && handles.event_loop is None,
            },
        decreases remaining(run.phase), (if action.is_for_interpreter() { 1nat } else { 0nat }),
    {
        let outcome = perform(py, &action, source, arguments, &mut handles);
        let next = run.advance(outcome);
        run = next.0;
        action = next.1;
    }
    (run, action, handles)
}

} // verus!
