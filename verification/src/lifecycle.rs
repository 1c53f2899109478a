//! The order in which a node is brought up, one step at a time.
//!
//! The library decides; its caller acts. [`Initialization::start`] gives the
//! first thing to do, the caller does it and reports how it went, and
//! [`Initialization::advance`] answers with the next. A failure ends the run
//! with one error and a list of what to let go.

use vstd::prelude::*;
use vstd::string::StringExecFns;
use crate::config::{configuration_fault, forwarded_of, prepare, script_of};
use crate::error::{reason_of, ErrorKind, Failure, HostError};
use crate::loader::LoadRequest;
use crate::native::{native_of, Native};
use crate::node::Node;
use crate::step::{held_before, release_order, Resource, Step};
use crate::value::{Json, Value};

verus! {

/// The name under which the script is run as a module.
pub const MODULE_NAME: &'static str = "op";

/// The function of the script that hands over the node's class.
pub const ENTRY_POINT: &'static str = "register";

/// What the error says when the runtime library cannot be opened.
pub const NOT_FOUND: &'static str = "Not found";

/// The kind of error that a failure at `step` is reported as.
pub open spec fn kind_of(step: Step, failure: Failure) -> ErrorKind {
    match step {
        Step::LoadRuntime | Step::Bootstrap => ErrorKind::Load,
        Step::ConvertContext
        | Step::ConvertConfiguration
        | Step::ConvertInputs
        | Step::ConvertOutputs => ErrorKind::Conversion,
        Step::ReadScript => ErrorKind::Io,
        Step::ExecuteScript | Step::CreateEventLoop => ErrorKind::Script,
        Step::Register => if failure is Raised {
            ErrorKind::Script
        } else {
            ErrorKind::Registration
        },
        Step::Construct => ErrorKind::Registration,
    }
}

/// The description of the error that a failure at `step` is reported with.
/// Why the runtime library did not open is not passed on.
pub open spec fn text_of(step: Step, failure: Failure) -> Seq<char> {
    if step == Step::LoadRuntime {
        NOT_FOUND@
    } else {
        reason_of(failure)
    }
}

/// The host's error for a failure at `step`.
pub fn report(step: Step, failure: &Failure) -> (error: HostError)
    ensures
        error.kind == kind_of(step, *failure),
        error.description@ == text_of(step, *failure),
{
    let kind = match step {
        Step::LoadRuntime | Step::Bootstrap => ErrorKind::Load,
        Step::ConvertContext
        | Step::ConvertConfiguration
        | Step::ConvertInputs
        | Step::ConvertOutputs => ErrorKind::Conversion,
        Step::ReadScript => ErrorKind::Io,
        Step::ExecuteScript | Step::CreateEventLoop => ErrorKind::Script,
        Step::Register => match failure {
            Failure::Raised(_) => ErrorKind::Script,
            _ => ErrorKind::Registration,
        },
        Step::Construct => ErrorKind::Registration,
    };
    match step {
        Step::LoadRuntime => HostError::new(kind, NOT_FOUND),
        _ => HostError::of(kind, failure),
    }
}

/// Where a run stands.
#[derive(Clone, Copy, Debug, PartialEq, Eq, Structural)]
pub enum Phase {
    /// The step named has been asked for and its outcome is awaited.
    At(Step),
    /// Every step succeeded: the node is up.
    Ready,
    /// The run was given up with an error of this kind. Nothing is held.
    Failed(ErrorKind),
}

/// What the caller is asked to do.
#[derive(Debug, PartialEq, Eq)]
pub enum Action {
    /// Open the runtime library as the request says.
    OpenRuntime(LoadRequest),
    /// Start the interpreter.
    BootstrapInterpreter,
    /// Make the interpreter's mirror of the host's context.
    ConvertContext,
    /// Build the interpreter's object for this value.
    ConvertConfiguration(Native),
    /// Wrap the input channels, one proxy for each.
    ConvertInputs,
    /// Wrap the output channels, one proxy for each.
    ConvertOutputs,
    /// Read the script's source from this path.
    ReadScript { path: String },
    /// Run the source as a module of this name, for this file name.
    ExecuteScript { file_name: String, module: String },
    /// Call this function of the module, with no argument.
    CallRegister { entry_point: String },
    /// Call what was registered with these arguments, in this order.
    Construct { arguments: Vec<Resource> },
    /// Make an event loop and install it as the node's.
    CreateEventLoop,
    /// Put the node together out of these and let everything else go.
    Assemble { keep: Vec<Resource> },
    /// Give up: let these go in this order, and hand the error to the host.
    Abort { error: HostError, release: Vec<Resource> },
    /// The run is over; there is nothing to do.
    Nothing,
}

/// The arguments that a node is built with, in their order.
pub open spec fn constructor_arguments() -> Seq<Resource> {
    seq![Resource::Context, Resource::Configuration, Resource::Inputs, Resource::Outputs]
}

/// What a node holds once it is up, in the order in which it is let go at
/// the end: the runtime library last.
pub open spec fn kept() -> Seq<Resource> {
    seq![Resource::EventLoop, Resource::UserObject, Resource::Module, Resource::RuntimeLibrary]
}

/// Whether `action` is what `step` asks of the caller, for a runtime library
/// that is opened as `runtime` says and a configuration without fault.
pub open spec fn asks(step: Step, runtime: LoadRequest, configuration: Json, action: Action) -> bool {
    match step {
        Step::LoadRuntime => action matches Action::OpenRuntime(request) && request.file_name@
            == runtime.file_name@ && request.resolution == runtime.resolution,
        Step::Bootstrap => action is BootstrapInterpreter,
        Step::ConvertContext => action is ConvertContext,
        Step::ConvertConfiguration => action matches Action::ConvertConfiguration(forwarded)
            && forwarded@ == native_of(forwarded_of(configuration)),
        Step::ConvertInputs => action is ConvertInputs,
        Step::ConvertOutputs => action is ConvertOutputs,
        Step::ReadScript => action matches Action::ReadScript { path } && script_of(configuration)
            == Some(path@),
        Step::ExecuteScript => action matches Action::ExecuteScript { file_name, module }
            && script_of(configuration) == Some(file_name@) && module@ == MODULE_NAME@,
        Step::Register => action matches Action::CallRegister { entry_point } && entry_point@
            == ENTRY_POINT@,
        Step::Construct => action matches Action::Construct { arguments } && arguments@
            == constructor_arguments(),
        Step::CreateEventLoop => action is CreateEventLoop,
    }
}

/// Where the run stands once `step` is to be taken: at that step, or given
/// up because the step needs the configuration and the configuration has a
/// fault.
pub open spec fn enter(step: Step, configuration: Json) -> Phase {
    if step.reads_configuration() && configuration_fault(configuration) is Some {
        Phase::Failed(ErrorKind::Conversion)
    } else {
        Phase::At(step)
    }
}

/// Where the run stands after an outcome is reported. A failure ends it; a
/// success takes it to the next step, or to `Ready` after the last. A run
/// that is over stays as it is.
pub open spec fn next_phase(phase: Phase, configuration: Json, outcome: Result<(), Failure>) -> Phase {
    match phase {
        Phase::At(step) => match outcome {
            Err(failure) => Phase::Failed(kind_of(step, failure)),
            Ok(_) => match step.following() {
                Some(next) => enter(next, configuration),
                None => Phase::Ready,
            },
        },
        _ => phase,
    }
}

/// A run of bringing one node up.
#[derive(Debug, PartialEq, Eq)]
pub struct Initialization {
    pub phase: Phase,
    /// How the interpreter's runtime library is opened.
    pub runtime: LoadRequest,
    pub configuration: Value,
}

impl Initialization {
    /// What `step` asks of the caller, or the error that ends the run
    /// because the step needs the configuration and it has a fault.
    fn request(&self, step: Step) -> (asked: Result<Action, HostError>)
        ensures
            match asked {
                Ok(action) => enter(step, self.configuration@) == Phase::At(step) && asks(
                    step,
                    self.runtime,
                    self.configuration@,
                    action,
                ),
                Err(e) => enter(step, self.configuration@) == Phase::Failed(ErrorKind::Conversion)
                    && e.kind == ErrorKind::Conversion && configuration_fault(self.configuration@)
                    == Some(e.description@),
            },
    {
        match step {
            Step::LoadRuntime => Ok(
                Action::OpenRuntime(
                    LoadRequest {
                        file_name: self.runtime.file_name.clone(),
                        resolution: self.runtime.resolution,
                    },
                ),
            ),
            Step::Bootstrap => Ok(Action::BootstrapInterpreter),
            Step::ConvertContext => Ok(Action::ConvertContext),
            Step::ConvertConfiguration => match prepare(&self.configuration) {
                Ok(prepared) => Ok(Action::ConvertConfiguration(prepared.forwarded)),
                Err(e) => Err(e),
            },
            Step::ConvertInputs => Ok(Action::ConvertInputs),
            Step::ConvertOutputs => Ok(Action::ConvertOutputs),
            Step::ReadScript => match prepare(&self.configuration) {
                Ok(prepared) => Ok(Action::ReadScript { path: prepared.script }),
                Err(e) => Err(e),
            },
            Step::ExecuteScript => match prepare(&self.configuration) {
                Ok(prepared) => Ok(
                    Action::ExecuteScript {
                        file_name: prepared.script,
                        module: String::from_str(MODULE_NAME),
                    },
                ),
                Err(e) => Err(e),
            },
            Step::Register => Ok(
                Action::CallRegister { entry_point: String::from_str(ENTRY_POINT) },
            ),
            Step::Construct => {
                let mut arguments: Vec<Resource> = Vec::new();
                arguments.push(Resource::Context);
                arguments.push(Resource::Configuration);
                arguments.push(Resource::Inputs);
                arguments.push(Resource::Outputs);
                assert(arguments@ =~= constructor_arguments());
                Ok(Action::Construct { arguments })
            },
            Step::CreateEventLoop => Ok(Action::CreateEventLoop),
        }
    }

    /// Begins a run for a runtime library that is opened as `runtime` says,
    /// and for the node's configuration. The first thing asked is always to
    /// open the runtime library: the configuration is not looked at before
    /// the interpreter is there.
    pub fn start(runtime: LoadRequest, configuration: Value) -> (begun: (Initialization, Action))
        ensures
            begun.0.phase == Phase::At(Step::LoadRuntime),
            begun.0.runtime == runtime,
            begun.0.configuration@ == configuration@,
            asks(Step::LoadRuntime, runtime, configuration@, begun.1),
    {
        let action = Action::OpenRuntime(
            LoadRequest { file_name: runtime.file_name.clone(), resolution: runtime.resolution },
        );
        let run = Initialization { phase: Phase::At(Step::LoadRuntime), runtime, configuration };
        (run, action)
    }

    /// Takes the outcome of what was last asked and says what is next.
    ///
    /// On a failure the run is over: the answer is `Abort`, with the error
    /// for that failure and everything acquired so far to let go, newest
    /// first. On a success the answer is what the next step asks, or `Abort`
    /// if that step needs the configuration and it has a fault, or
    /// `Assemble` after the last step. A run that is over answers `Nothing`.
    pub fn advance(self, outcome: Result<(), Failure>) -> (next: (Initialization, Action))
        ensures
            next.0.phase == next_phase(self.phase, self.configuration@, outcome),
            next.0.runtime == self.runtime,
            next.0.configuration@ == self.configuration@,
            self.phase matches Phase::At(step) ==> match outcome {
                Err(failure) => next.1 matches Action::Abort { error, release } && error.kind
                    == kind_of(step, failure) && error.description@ == text_of(step, failure)
                    && release@ == held_before(step).reverse(),
                Ok(_) => match step.following() {
                    None => next.1 matches Action::Assemble { keep } && keep@ == kept(),
                    Some(then) => match next.0.phase {
                        Phase::At(_) => asks(then, self.runtime, self.configuration@, next.1),
                        _ => next.1 matches Action::Abort { error, release } && error.kind
                            == ErrorKind::Conversion && configuration_fault(self.configuration@)
                            == Some(error.description@) && release@ == held_before(then).reverse(),
                    },
                },
            },
            !(self.phase is At) ==> next.1 is Nothing,
    {
        let step = match self.phase {
            Phase::At(step) => step,
            _ => {
                return (self, Action::Nothing);
            },
        };
        match outcome {
            Err(failure) => {
                let error = report(step, &failure);
                let run = Initialization {
                    phase: Phase::Failed(error.kind),
                    runtime: self.runtime,
                    configuration: self.configuration,
                };
                (run, Action::Abort { error, release: release_order(step) })
            },
            Ok(_) => match step.next() {
                None => {
                    let mut keep: Vec<Resource> = Vec::new();
                    keep.push(Resource::EventLoop);
                    keep.push(Resource::UserObject);
                    keep.push(Resource::Module);
                    keep.push(Resource::RuntimeLibrary);
                    assert(keep@ =~= kept());
                    let run = Initialization {
                        phase: Phase::Ready,
                        runtime: self.runtime,
                        configuration: self.configuration,
                    };
                    (run, Action::Assemble { keep })
                },
                Some(then) => match self.request(then) {
                    Ok(action) => {
                        let run = Initialization {
                            phase: Phase::At(then),
                            runtime: self.runtime,
                            configuration: self.configuration,
                        };
                        (run, action)
                    },
                    Err(error) => {
                        let run = Initialization {
                            phase: Phase::Failed(ErrorKind::Conversion),
                            runtime: self.runtime,
                            configuration: self.configuration,
                        };
                        (run, Action::Abort { error, release: release_order(then) })
                    },
                },
            },
        }
    }
}

/// The step that is taken after `position` others; the last one for any
/// number that is too large.
pub open spec fn step_at(position: nat) -> Step {
    if position == 0 {
        Step::LoadRuntime
    } else if position == 1 {
        Step::Bootstrap
    } else if position == 2 {
        Step::ConvertContext
    } else if position == 3 {
        Step::ConvertConfiguration
    } else if position == 4 {
        Step::ConvertInputs
    } else if position == 5 {
        Step::ConvertOutputs
    } else if position == 6 {
        Step::ReadScript
    } else if position == 7 {
        Step::ExecuteScript
    } else if position == 8 {
        Step::Register
    } else if position == 9 {
        Step::Construct
    } else {
        Step::CreateEventLoop
    }
}

/// The number of steps.
pub open spec fn step_count() -> nat {
    11
}

/// Where a run that stood at `phase` stands after the outcomes given, one
/// for each thing asked, in their order.
pub open spec fn run(phase: Phase, configuration: Json, outcomes: Seq<Result<(), Failure>>) -> Phase
    decreases outcomes.len(),
{
    if outcomes.len() == 0 {
        phase
    } else {
        next_phase(run(phase, configuration, outcomes.drop_last()), configuration, outcomes.last())
    }
}

/// As long as everything succeeds, a run stands at the step whose turn it
/// is, and has not passed the configuration if that has a fault.
proof fn lemma_run_while_succeeding(
    configuration: Json,
    outcomes: Seq<Result<(), Failure>>,
    count: nat,
)
    requires
        count <= outcomes.len(),
        count <= step_count(),
        forall|k: int| 0 <= k < count ==> (#[trigger] outcomes[k]) is Ok,
        count >= 3 ==> configuration_fault(configuration) is None,
    ensures
        run(Phase::At(Step::LoadRuntime), configuration, outcomes.take(count as int)) == if count
            == step_count() {
            Phase::Ready
        } else {
            Phase::At(step_at(count))
        },
    decreases count,
{
    let taken = outcomes.take(count as int);
    if count > 0 {
        lemma_run_while_succeeding(configuration, outcomes, (count - 1) as nat);
        assert(taken.drop_last() =~= outcomes.take(count - 1));
        assert(taken.last() == outcomes[count - 1]);
    }
}

/// A run that is over takes no notice of what is reported to it.
proof fn lemma_run_is_over(phase: Phase, configuration: Json, outcomes: Seq<Result<(), Failure>>)
    requires
        !(phase is At),
    ensures
        run(phase, configuration, outcomes) == phase,
    decreases outcomes.len(),
{
    if outcomes.len() > 0 {
        lemma_run_is_over(phase, configuration, outcomes.drop_last());
    }
}

/// A run can be followed in two parts.
proof fn lemma_run_in_parts(
    phase: Phase,
    configuration: Json,
    first: Seq<Result<(), Failure>>,
    second: Seq<Result<(), Failure>>,
)
    ensures
        run(phase, configuration, first + second) == run(
            run(phase, configuration, first),
            configuration,
            second,
        ),
    decreases second.len(),
{
    if second.len() == 0 {
        assert(first + second =~= first);
    } else {
        lemma_run_in_parts(phase, configuration, first, second.drop_last());
        assert((first + second).drop_last() =~= first + second.drop_last());
        assert((first + second).last() == second.last());
    }
}

/// A run that has not failed has seen nothing but successes, one for each
/// step behind it, and no fault in the configuration once it has come to
/// it.
proof fn lemma_run_was_succeeding(configuration: Json, outcomes: Seq<Result<(), Failure>>)
    ensures
        match run(Phase::At(Step::LoadRuntime), configuration, outcomes) {
            Phase::At(step) => step.position() == outcomes.len() && (forall|k: int|
                0 <= k < outcomes.len() ==> (#[trigger] outcomes[k]) is Ok) && (outcomes.len() >= 3
                ==> configuration_fault(configuration) is None),
            Phase::Ready => outcomes.len() >= step_count() && (forall|k: int|
                0 <= k < step_count() ==> (#[trigger] outcomes[k]) is Ok) && configuration_fault(
                configuration,
            ) is None,
            Phase::Failed(_) => true,
        },
    decreases outcomes.len(),
{
    if outcomes.len() > 0 {
        lemma_run_was_succeeding(configuration, outcomes.drop_last());
        assert forall|k: int| 0 <= k < outcomes.len() - 1 implies (#[trigger] outcomes[k])
            == outcomes.drop_last()[k] by {}
    }
}

/// No step is asked for twice in one run: the node's class is registered,
/// the node built and its event loop made once, and what they leave is what
/// every later iteration finds.
pub proof fn lemma_each_step_once(
    configuration: Json,
    outcomes: Seq<Result<(), Failure>>,
    earlier: int,
    later: int,
)
    requires
        0 <= earlier < later <= outcomes.len(),
        run(Phase::At(Step::LoadRuntime), configuration, outcomes.take(earlier)) is At,
    ensures
        run(Phase::At(Step::LoadRuntime), configuration, outcomes.take(later)) != run(
            Phase::At(Step::LoadRuntime),
            configuration,
            outcomes.take(earlier),
        ),
{
    lemma_run_was_succeeding(configuration, outcomes.take(earlier));
    lemma_run_was_succeeding(configuration, outcomes.take(later));
}

/// A node comes up exactly when nothing is wrong: the configuration has no
/// fault and each of the steps succeeds. In particular, with everything
/// else in order, it comes up if and only if the script registers a class
/// and a node can be built from it.
pub proof fn lemma_ready_iff_all_succeed(configuration: Json, outcomes: Seq<Result<(), Failure>>)
    requires
        outcomes.len() == step_count(),
    ensures
        run(Phase::At(Step::LoadRuntime), configuration, outcomes) == Phase::Ready <==> (
        configuration_fault(configuration) is None && forall|k: int|
            0 <= k < outcomes.len() ==> (#[trigger] outcomes[k]) is Ok),
{
    lemma_run_was_succeeding(configuration, outcomes);
    if configuration_fault(configuration) is None && forall|k: int|
        0 <= k < outcomes.len() ==> (#[trigger] outcomes[k]) is Ok {
        lemma_run_while_succeeding(configuration, outcomes, step_count());
        assert(outcomes.take(step_count() as int) =~= outcomes);
    }
}

/// The first failure decides: a run whose first failure comes at a step
/// fails with the kind of error that belongs to that step, whatever is
/// reported afterwards.
pub proof fn lemma_first_failure_decides(
    configuration: Json,
    outcomes: Seq<Result<(), Failure>>,
    position: nat,
)
    requires
        position < outcomes.len(),
        position < step_count(),
        forall|k: int| 0 <= k < position ==> (#[trigger] outcomes[k]) is Ok,
        outcomes[position as int] is Err,
        position >= 3 ==> configuration_fault(configuration) is None,
    ensures
        run(Phase::At(Step::LoadRuntime), configuration, outcomes) == Phase::Failed(
            kind_of(step_at(position), outcomes[position as int]->Err_0),
        ),
{
    let start = Phase::At(Step::LoadRuntime);
    let upto = outcomes.take(position as int + 1);
    let rest = outcomes.skip(position as int + 1);
    lemma_run_while_succeeding(configuration, outcomes, position);
    assert(upto.drop_last() =~= outcomes.take(position as int));
    assert(upto.last() == outcomes[position as int]);
    assert(outcomes =~= upto + rest);
    lemma_run_in_parts(start, configuration, upto, rest);
    lemma_run_is_over(run(start, configuration, upto), configuration, rest);
}

/// A configuration with a fault stops the run where the configuration is
/// first needed, with a conversion error, provided the runtime library
/// opened, the interpreter started and the context was mirrored.
pub proof fn lemma_fault_is_conversion_error(
    configuration: Json,
    outcomes: Seq<Result<(), Failure>>,
)
    requires
        configuration_fault(configuration) is Some,
        outcomes.len() >= 3,
        forall|k: int| 0 <= k < 3 ==> (#[trigger] outcomes[k]) is Ok,
    ensures
        run(Phase::At(Step::LoadRuntime), configuration, outcomes) == Phase::Failed(
            ErrorKind::Conversion,
        ),
{
    let start = Phase::At(Step::LoadRuntime);
    let upto = outcomes.take(3);
    let rest = outcomes.skip(3);
    lemma_run_while_succeeding(configuration, outcomes, 2);
    assert(upto.drop_last() =~= outcomes.take(2));
    assert(upto.last() == outcomes[2]);
    assert(outcomes =~= upto + rest);
    lemma_run_in_parts(start, configuration, upto, rest);
    lemma_run_is_over(run(start, configuration, upto), configuration, rest);
}

impl Initialization {
    /// The node that a finished run has brought up. A run that failed, or is
    /// not over, leaves none.
    pub fn into_node(self) -> (node: Option<Node>)
        ensures
            match node {
                Some(n) => self.phase is Ready && configuration_fault(self.configuration@) is None
                    && script_of(self.configuration@) == Some(n.script@),
                None => !(self.phase is Ready) || configuration_fault(self.configuration@) is Some,
            },
    {
        match self.phase {
            Phase::Ready => match prepare(&self.configuration) {
                Ok(prepared) => Some(Node { script: prepared.script }),
                Err(_) => None,
            },
            _ => None,
        }
    }
}

} // verus!
