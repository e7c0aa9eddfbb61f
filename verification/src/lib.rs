//! A verified terminal-emulation engine: a screen-buffer model with
//! scrollback and an alternate screen, a byte-stream interpreter for the
//! ANSI/VT control subset common shells use, a keyboard input encoder, and
//! the viewport arithmetic a renderer needs. The pseudo-terminal plumbing
//! that feeds bytes in and carries keystrokes out lives outside the library.

pub mod cell;
pub mod code_editor;
pub mod terminal;
pub mod screen;
pub mod parser;
pub mod encoder;
pub mod viewport;
pub mod laws;

use vstd::prelude::*;
use vstd::string::StringExecFns;

verus! {

/// The closed set of tab kinds the surrounding shell can host. The
/// terminal engine presents itself as one variant of this tagged union;
/// the shell owns the windowing around it.
#[derive(Clone, Debug)]
pub enum Tab {
    /// A placeholder tab with no content.
    Empty,
    /// A terminal session.
    CoreTerminal,
    /// A text editor over the named buffer.
    CoreEditor(String),
}

impl Tab {
    /// The window title of each tab kind: a fixed name, or the editor's
    /// buffer name after a fixed prefix.
    pub open spec fn spec_title(self) -> Seq<char> {
        match self {
            Tab::Empty => "Empty"@,
            Tab::CoreTerminal => "Terminal"@,
            Tab::CoreEditor(name) => "Editor - "@ + name@,
        }
    }

    /// The title a tab strip shows for this tab.
    pub fn title(&self) -> (t: String)
        ensures
            t@ == self.spec_title(),
    {
        match self {
            Tab::Empty => String::from_str("Empty"),
            Tab::CoreTerminal => String::from_str("Terminal"),
            Tab::CoreEditor(name) => String::from_str("Editor - ").concat(name.as_str()),
        }
    }
}

/// The built-in plugin behind the file and window menus. It only carries
/// the counter that numbers fresh editor buffers; the menus themselves
/// live with the shell.
pub struct CorePlugin {
    pub new_file_counter: usize,
}

impl Default for CorePlugin {
    /// Numbering starts at one.
    fn default() -> (p: CorePlugin)
        ensures
            p.new_file_counter == 1,
    {
        CorePlugin { new_file_counter: 1 }
    }
}

impl CorePlugin {
    /// The plugin's registry name.
    pub fn name(&self) -> (n: &'static str)
        ensures
            n@ == "core"@,
    {
        "core"
    }
}

} // verus!
