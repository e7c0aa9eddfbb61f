//! The terminal plugin's registry entry. The engine itself — screen,
//! interpreter, encoder, viewport — lives in the sibling modules; the
//! pseudo-terminal session that feeds it lives with the shell.

use vstd::prelude::*;

verus! {

/// The terminal plugin's registry entry. A session's state is a
/// `screen::TerminalState` driven by a `parser::Parser`, which the shell
/// owns together with the pseudo-terminal handles.
pub struct TerminalPlugin;

impl TerminalPlugin {
    /// The plugin's registry name.
    pub fn name(&self) -> (n: &'static str)
        ensures
            n@ == "terminal"@,
    {
        "terminal"
    }
}

/// The terminal plugin.
pub fn create() -> TerminalPlugin {
    TerminalPlugin
}

} // verus!
