use zenoh_flow_python_operator_wrapper::config::{
    prepare, split_configuration, Prepared, Settings, FORWARDED_KEY, INVALID_STATE, SCRIPT_KEY,
};
use zenoh_flow_python_operator_wrapper::error::{ErrorKind, HostError};
use zenoh_flow_python_operator_wrapper::native::{Native, UNSUPPORTED};
use zenoh_flow_python_operator_wrapper::value::{keys_are_distinct, Number, Value};

fn text(s: &str) -> Value {
    Value::String(s.to_string())
}

fn object(members: Vec<(&str, Value)>) -> Value {
    Value::Object(members.into_iter().map(|(k, v)| (k.to_string(), v)).collect())
}

fn invalid_state() -> HostError {
    HostError { kind: ErrorKind::Conversion, description: "Invalid state".to_string() }
}

#[test]
fn keys_are_the_documented_ones() {
    assert_eq!(SCRIPT_KEY, "python-script");
    assert_eq!(FORWARDED_KEY, "configuration");
    assert_eq!(INVALID_STATE, "Invalid state");
}

#[test]
fn split_reads_path_and_forwarded_value() {
    let forwarded = object(vec![
        ("threshold", Value::Number(Number::PosInt(3))),
        ("names", Value::Array(vec![text("a"), text("b")])),
    ]);
    let expected = object(vec![
        ("threshold", Value::Number(Number::PosInt(3))),
        ("names", Value::Array(vec![text("a"), text("b")])),
    ]);
    let configuration =
        object(vec![("python-script", text("/opt/op.py")), ("configuration", forwarded)]);
    assert_eq!(
        split_configuration(&configuration),
        Ok(Settings { script: "/opt/op.py".to_string(), forwarded: expected })
    );
}

#[test]
fn split_forwards_null_when_there_is_nothing_to_forward() {
    let configuration = object(vec![("python-script", text("op.py"))]);
    assert_eq!(
        split_configuration(&configuration),
        Ok(Settings { script: "op.py".to_string(), forwarded: Value::Null })
    );
}

#[test]
fn split_leaves_other_members_behind() {
    let configuration = object(vec![
        ("extra", Value::Bool(true)),
        ("configuration", text("kept")),
        ("python-script", text("op.py")),
        ("more", Value::Null),
    ]);
    assert_eq!(
        split_configuration(&configuration),
        Ok(Settings { script: "op.py".to_string(), forwarded: text("kept") })
    );
}

#[test]
fn split_forwards_verbatim_even_a_nested_script_key() {
    let configuration = object(vec![
        ("python-script", text("op.py")),
        ("configuration", object(vec![("python-script", text("inner.py"))])),
    ]);
    assert_eq!(
        split_configuration(&configuration),
        Ok(Settings {
            script: "op.py".to_string(),
            forwarded: object(vec![("python-script", text("inner.py"))]),
        })
    );
}

#[test]
fn split_fails_without_a_script_path() {
    let configuration = object(vec![("configuration", Value::Null)]);
    assert_eq!(split_configuration(&configuration), Err(invalid_state()));
    assert_eq!(split_configuration(&object(vec![])), Err(invalid_state()));
}

#[test]
fn split_fails_when_the_path_is_no_string() {
    let configuration = object(vec![("python-script", Value::Number(Number::PosInt(7)))]);
    assert_eq!(split_configuration(&configuration), Err(invalid_state()));
    let configuration = object(vec![("python-script", Value::Null)]);
    assert_eq!(split_configuration(&configuration), Err(invalid_state()));
}

#[test]
fn split_fails_on_what_is_no_object() {
    assert_eq!(split_configuration(&Value::Null), Err(invalid_state()));
    assert_eq!(split_configuration(&text("python-script")), Err(invalid_state()));
    assert_eq!(
        split_configuration(&Value::Array(vec![text("python-script")])),
        Err(invalid_state())
    );
}

#[test]
fn get_finds_the_first_member_of_a_name() {
    let v = object(vec![("a", Value::Bool(false)), ("b", Value::Null), ("a", Value::Bool(true))]);
    assert_eq!(v.get("a"), Some(&Value::Bool(false)));
    assert_eq!(v.get("b"), Some(&Value::Null));
    assert_eq!(v.get("c"), None);
    assert_eq!(Value::Null.get("a"), None);
    assert_eq!(Value::Array(vec![Value::Null]).get("0"), None);
}

#[test]
fn as_str_gives_the_text_of_strings_only() {
    assert_eq!(text("x").as_str(), Some("x"));
    assert_eq!(text("").as_str(), Some(""));
    assert_eq!(Value::Null.as_str(), None);
    assert_eq!(Value::Bool(true).as_str(), None);
    assert_eq!(Value::Number(Number::PosInt(1)).as_str(), None);
}

#[test]
fn duplicate_copies_the_whole_value() {
    let v = object(vec![
        ("list", Value::Array(vec![Value::Null, text("x"), Value::Number(Number::NegInt(-2))])),
        ("inner", object(vec![("f", Value::Number(Number::Float(1.5f64.to_bits())))])),
    ]);
    assert_eq!(v.duplicate(), v);
    assert_eq!(Value::Null.duplicate(), Value::Null);
}

#[test]
fn well_formed_numbers() {
    assert!(Number::PosInt(0).is_well_formed());
    assert!(Number::PosInt(u64::MAX).is_well_formed());
    assert!(Number::NegInt(-1).is_well_formed());
    assert!(Number::NegInt(i64::MIN).is_well_formed());
    assert!(!Number::NegInt(0).is_well_formed());
    assert!(!Number::NegInt(5).is_well_formed());
    assert!(Number::Float(0.0f64.to_bits()).is_well_formed());
    assert!(Number::Float((-2.5f64).to_bits()).is_well_formed());
    assert!(Number::Float(f64::MAX.to_bits()).is_well_formed());
    assert!(!Number::Float(f64::NAN.to_bits()).is_well_formed());
    assert!(!Number::Float(f64::INFINITY.to_bits()).is_well_formed());
    assert!(!Number::Float(f64::NEG_INFINITY.to_bits()).is_well_formed());
}

#[test]
fn well_formed_values() {
    assert!(Value::Null.is_well_formed());
    assert!(object(vec![("a", Value::Null), ("b", Value::Null)]).is_well_formed());
    assert!(!object(vec![("a", Value::Null), ("a", Value::Null)]).is_well_formed());
    assert!(!Value::Array(vec![Value::Null, Value::Number(Number::NegInt(1))]).is_well_formed());
    let nested = object(vec![(
        "outer",
        Value::Array(vec![object(vec![("x", Value::Bool(true)), ("x", Value::Bool(true))])]),
    )]);
    assert!(!nested.is_well_formed());
    let nan = object(vec![("n", Value::Number(Number::Float(f64::NAN.to_bits())))]);
    assert!(!nan.is_well_formed());
}

#[test]
fn distinct_keys_are_told_from_repeated_ones() {
    let none: Vec<(String, u8)> = vec![];
    assert!(keys_are_distinct(&none));
    assert!(keys_are_distinct(&vec![("a".to_string(), 1u8), ("b".to_string(), 1u8)]));
    assert!(!keys_are_distinct(&vec![
        ("a".to_string(), 1u8),
        ("b".to_string(), 2u8),
        ("a".to_string(), 3u8)
    ]));
}

#[test]
fn prepare_converts_what_is_forwarded() {
    let configuration = object(vec![
        ("python-script", text("op.py")),
        ("configuration", object(vec![("n", Value::Number(Number::NegInt(-4)))])),
    ]);
    assert_eq!(
        prepare(&configuration),
        Ok(Prepared {
            script: "op.py".to_string(),
            forwarded: Native::Dict(vec![(Native::Str("n".to_string()), Native::Int(-4))]),
        })
    );
}

#[test]
fn prepare_fails_without_a_script_path() {
    assert_eq!(prepare(&object(vec![("configuration", Value::Null)])), Err(invalid_state()));
}

#[test]
fn prepare_fails_on_what_json_cannot_hold() {
    let configuration = object(vec![
        ("python-script", text("op.py")),
        ("configuration", Value::Number(Number::Float(f64::INFINITY.to_bits()))),
    ]);
    assert_eq!(UNSUPPORTED, "Unsupported value");
    assert_eq!(
        prepare(&configuration),
        Err(HostError { kind: ErrorKind::Conversion, description: "Unsupported value".to_string() })
    );
}

#[test]
fn prepare_ignores_faults_outside_what_is_forwarded() {
    let configuration = object(vec![
        ("python-script", text("op.py")),
        ("other", Value::Number(Number::Float(f64::NAN.to_bits()))),
    ]);
    assert_eq!(
        prepare(&configuration),
        Ok(Prepared { script: "op.py".to_string(), forwarded: Native::Nil })
    );
}
