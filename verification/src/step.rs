//! The steps of bringing a node up, what each leaves behind, and the order
//! in which that is let go.

use vstd::prelude::*;

verus! {

/// The steps of bringing a node up, in the order they are taken.
#[derive(Clone, Copy, Debug, PartialEq, Eq, Structural)]
pub enum Step {
    /// Open the interpreter's runtime library.
    LoadRuntime,
    /// Start the interpreter.
    Bootstrap,
    /// Mirror the host's context.
    ConvertContext,
    /// Hand the configuration over.
    ConvertConfiguration,
    /// Wrap the input channels.
    ConvertInputs,
    /// Wrap the output channels.
    ConvertOutputs,
    /// Read the script's source.
    ReadScript,
    /// Run the source as a module.
    ExecuteScript,
    /// Ask the module for the node's class.
    Register,
    /// Build the node.
    Construct,
    /// Make the node's event loop and install it.
    CreateEventLoop,
}

/// What a step leaves behind for as long as the node lives, or until the
/// run is given up.
#[derive(Clone, Copy, Debug, PartialEq, Eq, Structural)]
pub enum Resource {
    /// The handle of the interpreter's runtime library.
    RuntimeLibrary,
    /// The interpreter's mirror of the host's context.
    Context,
    /// The interpreter's object for the configuration.
    Configuration,
    /// The proxies of the input channels.
    Inputs,
    /// The proxies of the output channels.
    Outputs,
    /// The module that the script was run as.
    Module,
    /// The class that the script registered.
    NodeClass,
    /// The node built from that class.
    UserObject,
    /// The node's event loop.
    EventLoop,
}

impl Step {
    /// The step taken after this one.
    pub open spec fn following(self) -> Option<Step> {
        match self {
            Step::LoadRuntime => Some(Step::Bootstrap),
            Step::Bootstrap => Some(Step::ConvertContext),
            Step::ConvertContext => Some(Step::ConvertConfiguration),
            Step::ConvertConfiguration => Some(Step::ConvertInputs),
            Step::ConvertInputs => Some(Step::ConvertOutputs),
            Step::ConvertOutputs => Some(Step::ReadScript),
            Step::ReadScript => Some(Step::ExecuteScript),
            Step::ExecuteScript => Some(Step::Register),
            Step::Register => Some(Step::Construct),
            Step::Construct => Some(Step::CreateEventLoop),
            Step::CreateEventLoop => None,
        }
    }

    /// The step taken before this one.
    pub open spec fn preceding(self) -> Option<Step> {
        match self {
            Step::LoadRuntime => None,
            Step::Bootstrap => Some(Step::LoadRuntime),
            Step::ConvertContext => Some(Step::Bootstrap),
            Step::ConvertConfiguration => Some(Step::ConvertContext),
            Step::ConvertInputs => Some(Step::ConvertConfiguration),
            Step::ConvertOutputs => Some(Step::ConvertInputs),
            Step::ReadScript => Some(Step::ConvertOutputs),
            Step::ExecuteScript => Some(Step::ReadScript),
            Step::Register => Some(Step::ExecuteScript),
            Step::Construct => Some(Step::Register),
            Step::CreateEventLoop => Some(Step::Construct),
        }
    }

    /// How many steps are taken before this one.
    pub open spec fn position(self) -> nat {
        match self {
            Step::LoadRuntime => 0,
            Step::Bootstrap => 1,
            Step::ConvertContext => 2,
            Step::ConvertConfiguration => 3,
            Step::ConvertInputs => 4,
            Step::ConvertOutputs => 5,
            Step::ReadScript => 6,
            Step::ExecuteScript => 7,
            Step::Register => 8,
            Step::Construct => 9,
            Step::CreateEventLoop => 10,
        }
    }

    /// What the step leaves behind when it succeeds.
    pub open spec fn acquires(self) -> Option<Resource> {
        match self {
            Step::LoadRuntime => Some(Resource::RuntimeLibrary),
            Step::Bootstrap => None,
            Step::ConvertContext => Some(Resource::Context),
            Step::ConvertConfiguration => Some(Resource::Configuration),
            Step::ConvertInputs => Some(Resource::Inputs),
            Step::ConvertOutputs => Some(Resource::Outputs),
            Step::ReadScript => None,
            Step::ExecuteScript => Some(Resource::Module),
            Step::Register => Some(Resource::NodeClass),
            Step::Construct => Some(Resource::UserObject),
            Step::CreateEventLoop => Some(Resource::EventLoop),
        }
    }

    /// Whether what the step asks for is read out of the configuration.
    pub open spec fn reads_configuration(self) -> bool {
        self == Step::ConvertConfiguration || self == Step::ReadScript || self
            == Step::ExecuteScript
    }

    /// The step taken after this one.
    pub fn next(self) -> (step: Option<Step>)
        ensures
            step == self.following(),
    {
        match self {
            Step::LoadRuntime => Some(Step::Bootstrap),
            Step::Bootstrap => Some(Step::ConvertContext),
            Step::ConvertContext => Some(Step::ConvertConfiguration),
            Step::ConvertConfiguration => Some(Step::ConvertInputs),
            Step::ConvertInputs => Some(Step::ConvertOutputs),
            Step::ConvertOutputs => Some(Step::ReadScript),
            Step::ReadScript => Some(Step::ExecuteScript),
            Step::ExecuteScript => Some(Step::Register),
            Step::Register => Some(Step::Construct),
            Step::Construct => Some(Step::CreateEventLoop),
            Step::CreateEventLoop => None,
        }
    }

    /// The step taken before this one.
    pub fn previous(self) -> (step: Option<Step>)
        ensures
            step == self.preceding(),
    {
        match self {
            Step::LoadRuntime => None,
            Step::Bootstrap => Some(Step::LoadRuntime),
            Step::ConvertContext => Some(Step::Bootstrap),
            Step::ConvertConfiguration => Some(Step::ConvertContext),
            Step::ConvertInputs => Some(Step::ConvertConfiguration),
            Step::ConvertOutputs => Some(Step::ConvertInputs),
            Step::ReadScript => Some(Step::ConvertOutputs),
            Step::ExecuteScript => Some(Step::ReadScript),
            Step::Register => Some(Step::ExecuteScript),
            Step::Construct => Some(Step::Register),
            Step::CreateEventLoop => Some(Step::Construct),
        }
    }

    /// What the step leaves behind when it succeeds.
    pub fn resource(self) -> (resource: Option<Resource>)
        ensures
            resource == self.acquires(),
    {
        match self {
            Step::LoadRuntime => Some(Resource::RuntimeLibrary),
            Step::Bootstrap => None,
            Step::ConvertContext => Some(Resource::Context),
            Step::ConvertConfiguration => Some(Resource::Configuration),
            Step::ConvertInputs => Some(Resource::Inputs),
            Step::ConvertOutputs => Some(Resource::Outputs),
            Step::ReadScript => None,
            Step::ExecuteScript => Some(Resource::Module),
            Step::Register => Some(Resource::NodeClass),
            Step::Construct => Some(Resource::UserObject),
            Step::CreateEventLoop => Some(Resource::EventLoop),
        }
    }
}

/// What the steps before `step` have left behind, oldest first.
pub open spec fn held_before(step: Step) -> Seq<Resource>
    decreases step.position(),
{
    match step.preceding() {
        None => Seq::empty(),
        Some(earlier) => match earlier.acquires() {
            Some(resource) => held_before(earlier).push(resource),
            None => held_before(earlier),
        },
    }
}

/// What is to be let go when the run is given up at `step`: all that the
/// earlier steps left behind, newest first, so that the runtime library
/// outlives everything made with it.
pub fn release_order(step: Step) -> (order: Vec<Resource>)
    ensures
        order@ == held_before(step).reverse(),
{
    let mut order: Vec<Resource> = Vec::new();
    let mut at = step;
    let mut before = step.previous();
    while before.is_some()
        invariant
            before == at.preceding(),
            order@ + held_before(at).reverse() =~= held_before(step).reverse(),
        decreases at.position(),
    {
        let earlier = before.unwrap();
        let ghost rest = held_before(earlier);
        match earlier.resource() {
            Some(resource) => {
                assert(rest.push(resource).reverse() =~= seq![resource] + rest.reverse());
                order.push(resource);
            },
            None => {},
        }
        at = earlier;
        before = earlier.previous();
    }
    order
}

/// Whenever a run is given up, the runtime library is let go last and only
/// once: everything made with it is gone before it is.
pub proof fn lemma_runtime_library_is_released_last(step: Step)
    ensures
        step == Step::LoadRuntime ==> held_before(step).reverse().len() == 0,
        step != Step::LoadRuntime ==> held_before(step).reverse().len() > 0 && held_before(
            step,
        ).reverse().last() == Resource::RuntimeLibrary,
        forall|i: int|
            0 <= i < held_before(step).reverse().len() - 1 ==> #[trigger] held_before(
                step,
            ).reverse()[i] != Resource::RuntimeLibrary,
    decreases step.position(),
{
    match step.preceding() {
        None => {},
        Some(earlier) => {
            lemma_runtime_library_is_released_last(earlier);
            let before = held_before(earlier);
            match earlier.acquires() {
                Some(resource) => {
                    assert(before.push(resource).reverse() =~= seq![resource] + before.reverse());
                },
                None => {},
            }
        },
    }
}

} // verus!
