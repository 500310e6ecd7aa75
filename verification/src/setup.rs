//! Support for registering the URI scheme with the operating system: the
//! registration itself writes OS association keys, but the command line it
//! stores is computed here.

use vstd::prelude::*;

verus! {

/// The shell-open command the scheme association stores: the handler
/// executable inside the given directory, invoked in run mode on the
/// clicked URI (`%1` stands for the URI).
pub fn scheme_open_command(dir: &str) -> (r: String)
    ensures
        r@ == "\""@ + dir@ + "\\url-scheme-handler.exe\" run \"%1\""@,
{
    String::from_str("\"").concat(dir).concat("\\url-scheme-handler.exe\" run \"%1\"")
}

} // verus!
