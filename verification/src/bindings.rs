//! The decisions that the host bindings make before they call the compiler.

use vstd::prelude::*;
use crate::options::FileName;
use crate::text::same_text;

verus! {

/// Whether a panic is to be reported with a backtrace: always in a debug
/// build, else where the debug switch is set to `1`.
pub open spec fn hook_wanted(debug_build: bool, debug_switch: Seq<char>) -> bool {
    debug_build || debug_switch == "1"@
}

/// Whether a panic is to be reported with a backtrace. `debug_switch` is the
/// value of the debug switch, empty where it is not set.
pub fn wants_panic_hook(debug_build: bool, debug_switch: &str) -> (wanted: bool)
    ensures
        wanted == hook_wanted(debug_build, debug_switch@),
{
    debug_build || same_text(debug_switch, "1")
}

/// The name of a source that was handed over as text: none where no file
/// name was given, else the given name as a path on disk.
pub fn source_name(filename: &str) -> (name: FileName)
    ensures
        match name {
            FileName::Anon => filename@.len() == 0,
            FileName::Real(Some(path)) => filename@.len() != 0 && path@ == filename@,
            _ => false,
        },
{
    if filename.is_empty() {
        FileName::Anon
    } else {
        FileName::Real(Some(filename.to_string()))
    }
}

} // verus!
