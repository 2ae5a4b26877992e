//! Invocation descriptors for external commands: an executable name and
//! discrete argument tokens. Arguments are never concatenated into a
//! shell string, so a network name or path cannot inject further
//! commands. The calling layer performs the actual spawn.

use vstd::prelude::*;

verus! {

/// One external command: a program and its positional arguments.
#[derive(Debug)]
pub struct CommandLine {
    pub program: String,
    pub args: Vec<String>,
}

pub struct CommandLineView {
    pub program: Seq<char>,
    pub args: Seq<Seq<char>>,
}

impl View for CommandLine {
    type V = CommandLineView;

    open spec fn view(&self) -> CommandLineView {
        CommandLineView { program: self.program@, args: self.args@.map_values(|a: String| a@) }
    }
}

} // verus!
