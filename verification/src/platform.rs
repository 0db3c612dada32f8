//! How the system runs a command line.

use vstd::prelude::*;

verus! {

/// Returns the shell executable and flag for running a command string on Windows or on a Unix
/// system.
pub fn shell_command(windows: bool) -> (r: (&'static str, &'static str))
    ensures
        windows ==> r.0@ == "cmd.exe"@ && r.1@ == "/C"@,
        !windows ==> r.0@ == "sh"@ && r.1@ == "-c"@,
{
    if windows {
        ("cmd.exe", "/C")
    } else {
        ("sh", "-c")
    }
}

} // verus!
