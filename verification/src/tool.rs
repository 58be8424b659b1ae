//! What the library asks of an external tool, and what comes back from it.

use vstd::prelude::*;
use vstd::string::*;

verus! {

/// One invocation of an external tool: the program, its argument vector and,
/// where it matters, the directory to run it in.
#[derive(Debug, Clone)]
pub struct ToolCommand {
    pub program: String,
    pub args: Vec<String>,
    pub current_dir: Option<String>,
}

/// `ToolCommand` as a mathematical value: its strings are sequences of characters.
pub struct ToolCommandView {
    pub program: Seq<char>,
    pub args: Seq<Seq<char>>,
    pub current_dir: Option<Seq<char>>,
}

impl View for ToolCommand {
    type V = ToolCommandView;

    open spec fn view(&self) -> ToolCommandView {
        ToolCommandView {
            program: self.program@,
            args: self.args.deep_view(),
            current_dir: self.current_dir.deep_view(),
        }
    }
}

/// What a tool left behind when it ended. `code` is `None` where a signal
/// ended it.
#[derive(Debug, Clone)]
pub struct ToolOutput {
    pub code: Option<i32>,
    pub stdout: String,
    pub stderr: String,
}

/// `ToolOutput` as a mathematical value: its strings are sequences of characters.
pub struct ToolOutputView {
    pub code: Option<i32>,
    pub stdout: Seq<char>,
    pub stderr: Seq<char>,
}

impl ToolOutputView {
    /// The tool ended by itself with exit code zero.
    pub open spec fn success(self) -> bool {
        self.code == Some(0i32)
    }
}

impl View for ToolOutput {
    type V = ToolOutputView;

    open spec fn view(&self) -> ToolOutputView {
        ToolOutputView { code: self.code, stdout: self.stdout@, stderr: self.stderr@ }
    }
}

impl ToolOutput {
    /// The tool ended by itself with exit code zero.
    pub fn success(&self) -> (ok: bool)
        ensures
            ok == self@.success(),
    {
        match self.code {
            Some(code) => code == 0,
            None => false,
        }
    }
}

/// The outcome of asking for a tool to be run.
#[derive(Debug, Clone)]
pub enum ToolResult {
    /// The tool could not be started; the text says why.
    NotStarted(String),
    /// The tool ran and ended.
    Finished(ToolOutput),
}

/// `ToolResult` as a mathematical value: its strings are sequences of characters.
pub enum ToolResultView {
    NotStarted(Seq<char>),
    Finished(ToolOutputView),
}

impl View for ToolResult {
    type V = ToolResultView;

    open spec fn view(&self) -> ToolResultView {
        match self {
            ToolResult::NotStarted(reason) => ToolResultView::NotStarted(reason@),
            ToolResult::Finished(output) => ToolResultView::Finished(output@),
        }
    }
}

/// Appends one argument to an argument vector.
pub fn push_arg(args: &mut Vec<String>, value: &str)
    ensures
        final(args).deep_view() == old(args).deep_view().push(value@),
{
    args.push(value.to_owned());
    assert(args.deep_view() =~= old(args).deep_view().push(value@));
}

impl ToolCommand {
    /// A command that runs `program` with no arguments yet.
    pub fn new(program: &str) -> (command: Self)
        ensures
            command@ == (ToolCommandView {
                program: program@,
                args: Seq::empty(),
                current_dir: None,
            }),
    {
        let command = ToolCommand {
            program: program.to_owned(),
            args: Vec::new(),
            current_dir: None,
        };
        assert(command.args.deep_view() =~= Seq::empty());
        command
    }

    /// Appends one argument.
    pub fn arg(&mut self, value: &str)
        ensures
            final(self)@ == (ToolCommandView {
                args: old(self)@.args.push(value@),
                ..old(self)@
            }),
    {
        push_arg(&mut self.args, value);
    }
}

} // verus!
