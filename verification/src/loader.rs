//! How the interpreter's runtime library is to be opened.

use vstd::prelude::*;
use vstd::string::StringExecFns;

verus! {

/// The family of platform that the node runs on.
#[derive(Clone, Copy, Debug, PartialEq, Eq, Structural)]
pub enum Platform {
    /// A POSIX-like system, where a library is opened with flags.
    Posix,
    /// Any other system.
    Other,
}

/// How the symbols of a library are resolved when it is opened.
#[derive(Clone, Copy, Debug, PartialEq, Eq, Structural)]
pub enum Resolution {
    /// All symbols are bound at once and offered to every library loaded
    /// later, so that extension modules find the interpreter's symbols.
    GlobalImmediate,
    /// Whatever the platform does by default.
    PlatformDefault,
}

/// A request to open a shared library.
#[derive(Debug, PartialEq, Eq)]
pub struct LoadRequest {
    pub file_name: String,
    pub resolution: Resolution,
}

/// The resolution that a platform calls for.
pub open spec fn resolution_on(platform: Platform) -> Resolution {
    match platform {
        Platform::Posix => Resolution::GlobalImmediate,
        Platform::Other => Resolution::PlatformDefault,
    }
}

/// The file name of a library called `name` on a platform that puts
/// `prefix` before the names of its libraries and `suffix` behind them.
pub open spec fn file_name_of(prefix: Seq<char>, name: Seq<char>, suffix: Seq<char>) -> Seq<char> {
    prefix + name + suffix
}

/// The request that opens the runtime library called `name` on `platform`,
/// whose libraries are named with `prefix` and `suffix`. The file name is
/// the prefix, the name and the suffix, in that order and with nothing
/// between them: it depends on these three alone, so the same library is
/// asked for every time.
pub fn load_request(name: &str, platform: Platform, prefix: &str, suffix: &str) -> (request:
    LoadRequest)
    ensures
        request.file_name@ == file_name_of(prefix@, name@, suffix@),
        request.resolution == resolution_on(platform),
{
    let resolution = match platform {
        Platform::Posix => Resolution::GlobalImmediate,
        Platform::Other => Resolution::PlatformDefault,
    };
    let mut file_name = prefix.to_owned();
    file_name.append(name);
    file_name.append(suffix);
    LoadRequest { file_name, resolution }
}

} // verus!
