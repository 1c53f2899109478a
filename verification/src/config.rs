//! What a node's configuration must hold, and what of it goes to the script.

use vstd::prelude::*;
use crate::error::{ErrorKind, HostError};
use crate::native::{native_of, to_native, unsupported, Native, UNSUPPORTED};
use crate::value::{Json, Value};

verus! {

/// The member that names the script's file.
pub const SCRIPT_KEY: &'static str = "python-script";

/// The member that is handed to the script.
pub const FORWARDED_KEY: &'static str = "configuration";

/// What the error says when the configuration names no script.
pub const INVALID_STATE: &'static str = "Invalid state";

/// The script's path: the string under [`SCRIPT_KEY`], if the configuration
/// is an object that has one.
pub open spec fn script_of(configuration: Json) -> Option<Seq<char>> {
    match configuration.member(SCRIPT_KEY@) {
        Some(Json::String(path)) => Some(path),
        _ => None,
    }
}

/// What the script is given: the value under [`FORWARDED_KEY`] as it stands,
/// or null where there is none. Every other member is left behind.
pub open spec fn forwarded_of(configuration: Json) -> Json {
    match configuration.member(FORWARDED_KEY@) {
        Some(v) => v,
        None => Json::Null,
    }
}

/// The two things read out of a configuration.
#[derive(Debug, PartialEq, Eq)]
pub struct Settings {
    /// The path of the script's file.
    pub script: String,
    /// The value to hand to the script.
    pub forwarded: Value,
}

/// Reads the script's path and the value for the script out of a
/// configuration. Fails exactly when the configuration names no script.
pub fn split_configuration(configuration: &Value) -> (settings: Result<Settings, HostError>)
    ensures
        match settings {
            Ok(s) => script_of(configuration@) == Some(s.script@) && s.forwarded@ == forwarded_of(
                configuration@,
            ),
            Err(e) => script_of(configuration@) is None && e.kind == ErrorKind::Conversion
                && e.description@ == INVALID_STATE@,
        },
{
    let script = match configuration.get(SCRIPT_KEY) {
        Some(named) => match named.as_str() {
            Some(path) => path.to_owned(),
            None => {
                return Err(HostError::new(ErrorKind::Conversion, INVALID_STATE));
            },
        },
        None => {
            return Err(HostError::new(ErrorKind::Conversion, INVALID_STATE));
        },
    };
    let forwarded = match configuration.get(FORWARDED_KEY) {
        Some(v) => v.duplicate(),
        None => Value::Null,
    };
    Ok(Settings { script, forwarded })
}

/// Why a configuration cannot be used: it names no script, or what it would
/// hand to the script is nothing that JSON can hold.
pub open spec fn configuration_fault(configuration: Json) -> Option<Seq<char>> {
    if script_of(configuration) is None {
        Some(INVALID_STATE@)
    } else if !forwarded_of(configuration).well_formed() {
        Some(UNSUPPORTED@)
    } else {
        None
    }
}

/// The script's path and, in the interpreter's form, the value for the
/// script.
#[derive(Debug, PartialEq, Eq)]
pub struct Prepared {
    pub script: String,
    pub forwarded: Native,
}

/// Checks a configuration and converts what the script is given. Fails with
/// a conversion error exactly when the configuration has a fault.
pub fn prepare(configuration: &Value) -> (prepared: Result<Prepared, HostError>)
    ensures
        match prepared {
            Ok(p) => configuration_fault(configuration@) is None && script_of(configuration@)
                == Some(p.script@) && p.forwarded@ == native_of(forwarded_of(configuration@)),
            Err(e) => e.kind == ErrorKind::Conversion && configuration_fault(configuration@)
                == Some(e.description@),
        },
{
    match split_configuration(configuration) {
        Ok(settings) => {
            if settings.forwarded.is_well_formed() {
                let forwarded = to_native(&settings.forwarded);
                Ok(Prepared { script: settings.script, forwarded })
            } else {
                Err(unsupported())
            }
        },
        Err(e) => Err(e),
    }
}

} // verus!
