//! Abstractions used by the session manager: the terminal grid that a
//! child's output is drawn into, and the session that owns the windows.

pub mod action;
pub mod color;
pub mod decimal;
pub mod escape;
pub mod event;
pub mod grid;
pub mod laws;
pub mod session;

use vstd::prelude::*;

verus! {

/// The shell a new window runs: the one named by the user's `SHELL`,
/// given as `shell_var`, or else `/bin/sh`.
pub fn get_shell(shell_var: Option<String>) -> (r: String)
    ensures
        match shell_var {
            Some(s) => r@ == s@,
            None => r@ == "/bin/sh"@,
        },
{
    match shell_var {
        Some(s) => s,
        None => "/bin/sh".to_string(),
    }
}

} // verus!
