use zenoh_flow_python_operator_wrapper::error::{
    describe, translate, ErrorKind, Exception, Failure, HostError,
};

fn plain(text: &str, trace: &str) -> Exception {
    Exception { text: text.to_string(), trace: trace.to_string(), cause: None }
}

#[test]
fn new_keeps_kind_and_description() {
    assert_eq!(
        HostError::new(ErrorKind::Io, "no such file"),
        HostError { kind: ErrorKind::Io, description: "no such file".to_string() }
    );
}

#[test]
fn describe_writes_text_and_trace() {
    let e = plain("ValueError: boom", "  File \"op.py\", line 3, in register\n");
    assert_eq!(
        describe(&e),
        "Error: ValueError: boom\nTraceback:   File \"op.py\", line 3, in register\n"
    );
}

#[test]
fn describe_an_exception_without_a_trace() {
    assert_eq!(describe(&plain("boom", "")), "Error: boom\nTraceback: ");
    assert_eq!(describe(&plain("", "")), "Error: \nTraceback: ");
}

#[test]
fn describe_follows_the_chain_of_causes() {
    let root = plain("KeyError: 'x'", "t0");
    let middle =
        Exception { text: "ValueError".to_string(), trace: "t1".to_string(), cause: Some(Box::new(root)) };
    let top = Exception {
        text: "RuntimeError: failed".to_string(),
        trace: "t2".to_string(),
        cause: Some(Box::new(middle)),
    };
    assert_eq!(
        describe(&top),
        "Error: RuntimeError: failed\nTraceback: t2\
         \nCaused by: Error: ValueError\nTraceback: t1\
         \nCaused by: Error: KeyError: 'x'\nTraceback: t0"
    );
}

#[test]
fn translate_gives_one_error_of_the_kind_asked() {
    let e = plain("boom", "trace");
    assert_eq!(
        translate(ErrorKind::Script, &e),
        HostError { kind: ErrorKind::Script, description: "Error: boom\nTraceback: trace".to_string() }
    );
    assert_eq!(translate(ErrorKind::Iteration, &e).kind, ErrorKind::Iteration);
}

#[test]
fn translation_loses_no_exception_of_the_chain() {
    let root = plain("inner text", "inner trace");
    let top = Exception {
        text: "outer text".to_string(),
        trace: "outer trace".to_string(),
        cause: Some(Box::new(root)),
    };
    let description = translate(ErrorKind::Registration, &top).description;
    for part in ["outer text", "outer trace", "inner text", "inner trace"] {
        assert!(description.contains(part));
    }
}

#[test]
fn the_error_for_a_failure_says_what_the_failure_says() {
    assert_eq!(
        HostError::of(ErrorKind::Io, &Failure::Refused("permission denied".to_string())),
        HostError { kind: ErrorKind::Io, description: "permission denied".to_string() }
    );
    assert_eq!(
        HostError::of(ErrorKind::Registration, &Failure::Unusable("not callable".to_string())),
        HostError { kind: ErrorKind::Registration, description: "not callable".to_string() }
    );
    assert_eq!(
        HostError::of(ErrorKind::Script, &Failure::Raised(plain("NameError: x", "t"))),
        HostError {
            kind: ErrorKind::Script,
            description: "Error: NameError: x\nTraceback: t".to_string()
        }
    );
}
