use zenoh_flow_python_operator_wrapper::error::{ErrorKind, Exception, Failure, HostError};
use zenoh_flow_python_operator_wrapper::lifecycle::{
    report, Action, Initialization, Phase, ENTRY_POINT, MODULE_NAME, NOT_FOUND,
};
use zenoh_flow_python_operator_wrapper::node::{concluded, Node, ITERATION_METHOD};
use zenoh_flow_python_operator_wrapper::step::{release_order, Resource, Step};
use zenoh_flow_python_operator_wrapper::loader::{load_request, LoadRequest, Platform, Resolution};
use zenoh_flow_python_operator_wrapper::native::Native;
use zenoh_flow_python_operator_wrapper::value::{Number, Value};

const STEPS: [Step; 11] = [
    Step::LoadRuntime,
    Step::Bootstrap,
    Step::ConvertContext,
    Step::ConvertConfiguration,
    Step::ConvertInputs,
    Step::ConvertOutputs,
    Step::ReadScript,
    Step::ExecuteScript,
    Step::Register,
    Step::Construct,
    Step::CreateEventLoop,
];

fn good_configuration() -> Value {
    Value::Object(vec![
        ("python-script".to_string(), Value::String("/scripts/op.py".to_string())),
        (
            "configuration".to_string(),
            Value::Object(vec![("rate".to_string(), Value::Number(Number::PosInt(10)))]),
        ),
    ])
}

fn runtime() -> LoadRequest {
    load_request("python3.11", Platform::Posix, "lib", ".so")
}

fn refused(reason: &str) -> Failure {
    Failure::Refused(reason.to_string())
}

fn raised(text: &str) -> Failure {
    Failure::Raised(Exception { text: text.to_string(), trace: String::new(), cause: None })
}

/// Runs from the start with success until `step` is the one awaited.
fn run_to(step: Step, configuration: Value) -> Initialization {
    let (mut run, _) = Initialization::start(runtime(), configuration);
    while run.phase != Phase::At(step) {
        assert!(matches!(run.phase, Phase::At(_)));
        run = run.advance(Ok(())).0;
    }
    run
}

#[test]
fn names_are_the_documented_ones() {
    assert_eq!(MODULE_NAME, "op");
    assert_eq!(ENTRY_POINT, "register");
    assert_eq!(ITERATION_METHOD, "iteration");
    assert_eq!(NOT_FOUND, "Not found");
}

#[test]
fn steps_follow_each_other_in_order() {
    for pair in STEPS.windows(2) {
        assert_eq!(pair[0].next(), Some(pair[1]));
        assert_eq!(pair[1].previous(), Some(pair[0]));
    }
    assert_eq!(Step::LoadRuntime.previous(), None);
    assert_eq!(Step::CreateEventLoop.next(), None);
}

#[test]
fn steps_leave_their_resources_behind() {
    assert_eq!(Step::LoadRuntime.resource(), Some(Resource::RuntimeLibrary));
    assert_eq!(Step::Bootstrap.resource(), None);
    assert_eq!(Step::ConvertContext.resource(), Some(Resource::Context));
    assert_eq!(Step::ConvertConfiguration.resource(), Some(Resource::Configuration));
    assert_eq!(Step::ConvertInputs.resource(), Some(Resource::Inputs));
    assert_eq!(Step::ConvertOutputs.resource(), Some(Resource::Outputs));
    assert_eq!(Step::ReadScript.resource(), None);
    assert_eq!(Step::ExecuteScript.resource(), Some(Resource::Module));
    assert_eq!(Step::Register.resource(), Some(Resource::NodeClass));
    assert_eq!(Step::Construct.resource(), Some(Resource::UserObject));
    assert_eq!(Step::CreateEventLoop.resource(), Some(Resource::EventLoop));
}

#[test]
fn start_asks_for_the_runtime_library() {
    let (run, action) = Initialization::start(runtime(), good_configuration());
    assert_eq!(run.phase, Phase::At(Step::LoadRuntime));
    assert_eq!(run.runtime, runtime());
    assert_eq!(run.configuration, good_configuration());
    match action {
        Action::OpenRuntime(request) => {
            assert_eq!(request.file_name, "libpython3.11.so");
            assert_eq!(request.resolution, Resolution::GlobalImmediate);
        }
        other => panic!("unexpected action {:?}", other),
    }
}

#[test]
fn start_does_not_look_at_the_configuration() {
    let (run, action) = Initialization::start(load_request("python3.11", Platform::Other, "", ".dll"), Value::Null);
    assert_eq!(run.phase, Phase::At(Step::LoadRuntime));
    assert!(matches!(action, Action::OpenRuntime(_)));
}

#[test]
fn a_run_without_failure_asks_each_step_in_order_and_ends_ready() {
    let (run, first) = Initialization::start(runtime(), good_configuration());
    assert!(matches!(first, Action::OpenRuntime(_)));
    let (run, action) = run.advance(Ok(()));
    assert_eq!((run.phase, &action), (Phase::At(Step::Bootstrap), &Action::BootstrapInterpreter));
    let (run, action) = run.advance(Ok(()));
    assert_eq!((run.phase, &action), (Phase::At(Step::ConvertContext), &Action::ConvertContext));
    let (run, action) = run.advance(Ok(()));
    assert_eq!(run.phase, Phase::At(Step::ConvertConfiguration));
    assert_eq!(
        action,
        Action::ConvertConfiguration(Native::Dict(vec![(
            Native::Str("rate".to_string()),
            Native::Int(10)
        )]))
    );
    let (run, action) = run.advance(Ok(()));
    assert_eq!((run.phase, &action), (Phase::At(Step::ConvertInputs), &Action::ConvertInputs));
    let (run, action) = run.advance(Ok(()));
    assert_eq!((run.phase, &action), (Phase::At(Step::ConvertOutputs), &Action::ConvertOutputs));
    let (run, action) = run.advance(Ok(()));
    assert_eq!(run.phase, Phase::At(Step::ReadScript));
    assert_eq!(action, Action::ReadScript { path: "/scripts/op.py".to_string() });
    let (run, action) = run.advance(Ok(()));
    assert_eq!(run.phase, Phase::At(Step::ExecuteScript));
    assert_eq!(
        action,
        Action::ExecuteScript { file_name: "/scripts/op.py".to_string(), module: "op".to_string() }
    );
    let (run, action) = run.advance(Ok(()));
    assert_eq!(run.phase, Phase::At(Step::Register));
    assert_eq!(action, Action::CallRegister { entry_point: "register".to_string() });
    let (run, action) = run.advance(Ok(()));
    assert_eq!(run.phase, Phase::At(Step::Construct));
    assert_eq!(
        action,
        Action::Construct {
            arguments: vec![
                Resource::Context,
                Resource::Configuration,
                Resource::Inputs,
                Resource::Outputs
            ]
        }
    );
    let (run, action) = run.advance(Ok(()));
    assert_eq!((run.phase, &action), (Phase::At(Step::CreateEventLoop), &Action::CreateEventLoop));
    let (run, action) = run.advance(Ok(()));
    assert_eq!(run.phase, Phase::Ready);
    assert_eq!(
        action,
        Action::Assemble {
            keep: vec![
                Resource::EventLoop,
                Resource::UserObject,
                Resource::Module,
                Resource::RuntimeLibrary
            ]
        }
    );
    assert_eq!(run.configuration, good_configuration());
    assert_eq!(
        run.into_node(),
        Some(Node { script: "/scripts/op.py".to_string() })
    );
}

#[test]
fn a_failure_at_any_step_ends_the_run_with_the_kind_of_that_step() {
    let kinds = [
        ErrorKind::Load,
        ErrorKind::Load,
        ErrorKind::Conversion,
        ErrorKind::Conversion,
        ErrorKind::Conversion,
        ErrorKind::Conversion,
        ErrorKind::Io,
        ErrorKind::Script,
        ErrorKind::Script,
        ErrorKind::Registration,
        ErrorKind::Script,
    ];
    for (step, kind) in STEPS.iter().zip(kinds.iter()) {
        let run = run_to(*step, good_configuration());
        let (run, action) = run.advance(Err(raised("boom")));
        assert_eq!(run.phase, Phase::Failed(*kind));
        match action {
            Action::Abort { error, release } => {
                assert_eq!(error.kind, *kind);
                assert_eq!(release, release_order(*step));
            }
            other => panic!("unexpected action {:?}", other),
        }
        assert_eq!(run.into_node(), None);
    }
}

#[test]
fn an_unopened_runtime_library_is_not_found() {
    let (run, _) = Initialization::start(runtime(), good_configuration());
    let (run, action) = run.advance(Err(refused("libpython3.11.so: cannot open shared object file")));
    assert_eq!(run.phase, Phase::Failed(ErrorKind::Load));
    assert_eq!(
        action,
        Action::Abort {
            error: HostError { kind: ErrorKind::Load, description: "Not found".to_string() },
            release: vec![],
        }
    );
}

#[test]
fn an_unreadable_script_is_an_io_error() {
    let run = run_to(Step::ReadScript, good_configuration());
    let (run, action) = run.advance(Err(refused("No such file or directory (os error 2)")));
    assert_eq!(run.phase, Phase::Failed(ErrorKind::Io));
    assert_eq!(
        action,
        Action::Abort {
            error: HostError {
                kind: ErrorKind::Io,
                description: "No such file or directory (os error 2)".to_string(),
            },
            release: vec![
                Resource::Outputs,
                Resource::Inputs,
                Resource::Configuration,
                Resource::Context,
                Resource::RuntimeLibrary,
            ],
        }
    );
}

#[test]
fn a_missing_script_path_stops_the_run_at_the_configuration() {
    let configuration = Value::Object(vec![("configuration".to_string(), Value::Null)]);
    let run = run_to(Step::ConvertContext, configuration);
    let (run, action) = run.advance(Ok(()));
    assert_eq!(run.phase, Phase::Failed(ErrorKind::Conversion));
    assert_eq!(
        action,
        Action::Abort {
            error: HostError { kind: ErrorKind::Conversion, description: "Invalid state".to_string() },
            release: vec![Resource::Context, Resource::RuntimeLibrary],
        }
    );
    assert_eq!(run.into_node(), None);
}

#[test]
fn a_configuration_that_json_cannot_hold_stops_the_run() {
    let configuration = Value::Object(vec![
        ("python-script".to_string(), Value::String("op.py".to_string())),
        (
            "configuration".to_string(),
            Value::Array(vec![Value::Number(Number::Float(f64::NAN.to_bits()))]),
        ),
    ]);
    let run = run_to(Step::ConvertContext, configuration);
    let (run, action) = run.advance(Ok(()));
    assert_eq!(run.phase, Phase::Failed(ErrorKind::Conversion));
    assert_eq!(
        action,
        Action::Abort {
            error: HostError {
                kind: ErrorKind::Conversion,
                description: "Unsupported value".to_string(),
            },
            release: vec![Resource::Context, Resource::RuntimeLibrary],
        }
    );
}

#[test]
fn a_bad_configuration_does_not_hide_a_missing_runtime_library() {
    let (run, _) = Initialization::start(runtime(), Value::Null);
    let (run, action) = run.advance(Err(refused("missing")));
    assert_eq!(run.phase, Phase::Failed(ErrorKind::Load));
    assert!(matches!(action, Action::Abort { .. }));
}

#[test]
fn register_raising_is_a_script_error_with_its_message() {
    let run = run_to(Step::Register, good_configuration());
    let failure = Failure::Raised(Exception {
        text: "RuntimeError: cannot register".to_string(),
        trace: "  File \"/scripts/op.py\", line 9, in register\n".to_string(),
        cause: None,
    });
    let (run, action) = run.advance(Err(failure));
    assert_eq!(run.phase, Phase::Failed(ErrorKind::Script));
    match action {
        Action::Abort { error, release } => {
            assert_eq!(error.kind, ErrorKind::Script);
            assert_eq!(
                error.description,
                "Error: RuntimeError: cannot register\nTraceback:   File \"/scripts/op.py\", line 9, in register\n"
            );
            assert!(error.description.contains("RuntimeError: cannot register"));
            assert!(!release.contains(&Resource::UserObject));
            assert!(!release.contains(&Resource::NodeClass));
            assert_eq!(
                release,
                vec![
                    Resource::Module,
                    Resource::Outputs,
                    Resource::Inputs,
                    Resource::Configuration,
                    Resource::Context,
                    Resource::RuntimeLibrary,
                ]
            );
        }
        other => panic!("unexpected action {:?}", other),
    }
    assert_eq!(run.into_node(), None);
}

#[test]
fn a_script_without_entry_point_is_a_registration_error() {
    let run = run_to(Step::Register, good_configuration());
    let (run, action) = run.advance(Err(Failure::Unusable("no function `register`".to_string())));
    assert_eq!(run.phase, Phase::Failed(ErrorKind::Registration));
    match action {
        Action::Abort { error, .. } => assert_eq!(
            error,
            HostError {
                kind: ErrorKind::Registration,
                description: "no function `register`".to_string()
            }
        ),
        other => panic!("unexpected action {:?}", other),
    }
}

#[test]
fn a_class_that_cannot_be_built_is_a_registration_error() {
    let run = run_to(Step::Construct, good_configuration());
    let (run, action) =
        run.advance(Err(raised("TypeError: __init__() takes 3 positional arguments but 5 were given")));
    assert_eq!(run.phase, Phase::Failed(ErrorKind::Registration));
    match action {
        Action::Abort { error, release } => {
            assert_eq!(error.kind, ErrorKind::Registration);
            assert_eq!(
                error.description,
                "Error: TypeError: __init__() takes 3 positional arguments but 5 were given\nTraceback: "
            );
            assert_eq!(release.first(), Some(&Resource::NodeClass));
            assert_eq!(release.last(), Some(&Resource::RuntimeLibrary));
        }
        other => panic!("unexpected action {:?}", other),
    }
}

#[test]
fn a_run_that_is_over_asks_for_nothing() {
    let run = run_to(Step::CreateEventLoop, good_configuration());
    let (run, _) = run.advance(Ok(()));
    let (run, action) = run.advance(Ok(()));
    assert_eq!((run.phase, &action), (Phase::Ready, &Action::Nothing));
    let (run, action) = run.advance(Err(raised("late")));
    assert_eq!((run.phase, &action), (Phase::Ready, &Action::Nothing));

    let failed = run_to(Step::Bootstrap, good_configuration()).advance(Err(raised("x"))).0;
    let (failed, action) = failed.advance(Ok(()));
    assert_eq!((failed.phase, &action), (Phase::Failed(ErrorKind::Load), &Action::Nothing));
}

#[test]
fn a_run_that_is_not_over_leaves_no_node() {
    for step in STEPS {
        assert_eq!(run_to(step, good_configuration()).into_node(), None);
    }
}

#[test]
fn release_order_is_newest_first_with_the_runtime_library_last() {
    assert_eq!(release_order(Step::LoadRuntime), vec![]);
    assert_eq!(release_order(Step::Bootstrap), vec![Resource::RuntimeLibrary]);
    assert_eq!(release_order(Step::ConvertContext), vec![Resource::RuntimeLibrary]);
    assert_eq!(
        release_order(Step::ExecuteScript),
        release_order(Step::ReadScript)
    );
    assert_eq!(
        release_order(Step::CreateEventLoop),
        vec![
            Resource::UserObject,
            Resource::NodeClass,
            Resource::Module,
            Resource::Outputs,
            Resource::Inputs,
            Resource::Configuration,
            Resource::Context,
            Resource::RuntimeLibrary,
        ]
    );
    for step in &STEPS[1..] {
        let order = release_order(*step);
        assert_eq!(order.last(), Some(&Resource::RuntimeLibrary));
        assert_eq!(order.iter().filter(|r| **r == Resource::RuntimeLibrary).count(), 1);
    }
}

#[test]
fn report_says_what_the_failure_said() {
    assert_eq!(
        report(Step::ReadScript, &refused("denied")),
        HostError { kind: ErrorKind::Io, description: "denied".to_string() }
    );
    assert_eq!(
        report(Step::ExecuteScript, &raised("SyntaxError: invalid syntax")),
        HostError {
            kind: ErrorKind::Script,
            description: "Error: SyntaxError: invalid syntax\nTraceback: ".to_string()
        }
    );
    assert_eq!(
        report(Step::Register, &Failure::Unusable("not callable".to_string())),
        HostError { kind: ErrorKind::Registration, description: "not callable".to_string() }
    );
    assert_eq!(
        report(Step::LoadRuntime, &raised("anything")),
        HostError { kind: ErrorKind::Load, description: "Not found".to_string() }
    );
}

#[test]
fn an_iteration_that_came_to_its_end_gives_unit() {
    assert_eq!(concluded(Ok(())), Ok(()));
}

#[test]
fn a_failed_iteration_is_reported_as_such() {
    let failure = Failure::Raised(Exception {
        text: "ZeroDivisionError: division by zero".to_string(),
        trace: "  File \"op.py\", line 20, in iteration\n".to_string(),
        cause: None,
    });
    assert_eq!(
        concluded(Err(failure)),
        Err(HostError {
            kind: ErrorKind::Iteration,
            description:
                "Error: ZeroDivisionError: division by zero\nTraceback:   File \"op.py\", line 20, in iteration\n"
                    .to_string(),
        })
    );
    assert_eq!(
        concluded(Err(refused("interrupted"))),
        Err(HostError { kind: ErrorKind::Iteration, description: "interrupted".to_string() })
    );
}

#[test]
fn a_finished_run_leaves_the_node_of_its_script() {
    let run = run_to(Step::CreateEventLoop, good_configuration());
    let node = run.advance(Ok(())).0.into_node().unwrap();
    assert_eq!(node, Node { script: "/scripts/op.py".to_string() });
}
