//! The code-editor plugin's computable part: its registry entry and the
//! mapping from a file extension to the syntax-highlighting language tag.
//! Reading, saving and drawing buffers is file and widget work that lives
//! with the shell, which calls in here for the decisions.

use vstd::prelude::*;
use vstd::string::StringExecFns;

verus! {

/// The tag the highlighter uses for a file extension; unknown extensions
/// are treated as plain text.
pub open spec fn spec_language_for_extension(ext: Seq<char>) -> Seq<char> {
    if ext == "rs"@ {
        "rs"@
    } else if ext == "py"@ {
        "py"@
    } else if ext == "js"@ || ext == "ts"@ {
        "js"@
    } else if ext == "html"@ {
        "html"@
    } else if ext == "css"@ {
        "css"@
    } else if ext == "json"@ {
        "json"@
    } else if ext == "md"@ {
        "md"@
    } else if ext == "toml"@ {
        "toml"@
    } else if ext == "c"@ || ext == "h"@ {
        "c"@
    } else if ext == "cpp"@ || ext == "hpp"@ || ext == "cc"@ || ext == "cxx"@ {
        "cpp"@
    } else {
        "txt"@
    }
}

/// Map a file extension to its language tag, as
/// `spec_language_for_extension` describes.
pub fn language_for_extension(ext: &String) -> (lang: String)
    ensures
        lang@ == spec_language_for_extension(ext@),
{
    if *ext == String::from_str("rs") {
        String::from_str("rs")
    } else if *ext == String::from_str("py") {
        String::from_str("py")
    } else if *ext == String::from_str("js") || *ext == String::from_str("ts") {
        String::from_str("js")
    } else if *ext == String::from_str("html") {
        String::from_str("html")
    } else if *ext == String::from_str("css") {
        String::from_str("css")
    } else if *ext == String::from_str("json") {
        String::from_str("json")
    } else if *ext == String::from_str("md") {
        String::from_str("md")
    } else if *ext == String::from_str("toml") {
        String::from_str("toml")
    } else if *ext == String::from_str("c") || *ext == String::from_str("h") {
        String::from_str("c")
    } else if *ext == String::from_str("cpp") || *ext == String::from_str("hpp") || *ext
        == String::from_str("cc") || *ext == String::from_str("cxx") {
        String::from_str("cpp")
    } else {
        String::from_str("txt")
    }
}

/// The code-editor plugin's registry entry. Its state is the open
/// buffers, which the shell owns.
pub struct CodeEditorPlugin;

impl CodeEditorPlugin {
    /// The plugin's registry name.
    pub fn name(&self) -> (n: &'static str)
        ensures
            n@ == "code_editor"@,
    {
        "code_editor"
    }

    /// The plugins that must be registered before this one.
    pub fn dependencies(&self) -> (deps: Vec<String>)
        ensures
            deps@.len() == 1,
            deps@[0]@ == "core"@,
    {
        let mut deps: Vec<String> = Vec::new();
        deps.push(String::from_str("core"));
        deps
    }
}

/// The code-editor plugin.
pub fn create() -> CodeEditorPlugin {
    CodeEditorPlugin
}

} // verus!
