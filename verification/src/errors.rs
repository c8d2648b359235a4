//! The failures that end a run, and the text each is reported with.

use vstd::prelude::*;
use vstd::string::StringExecFns;

verus! {

/// Opens the report of a failure inside the script interpreter.
pub const LUA: &'static str = "A Lua error occurred. Details:\n";

/// Opens the report of a failed command, up to the command.
pub const CMD_BEFORE: &'static str = "An error occurred while executing \"";

/// Goes on after the command.
pub const CMD_AFTER: &'static str = "\". Details:\n";

/// Opens the report of a text that could not be parsed, up to the text.
pub const PARSE_BEFORE: &'static str = "An error occurred while parsing \"";

/// Goes on after the text, up to what it was to be parsed into.
pub const PARSE_BETWEEN: &'static str = "\" into a \"";

/// Goes on after that.
pub const PARSE_AFTER: &'static str = "\". Details:\n";

/// Opens the report of a file that could not be read, up to its path.
pub const READ_BEFORE: &'static str = "An I/O error occurred while trying to read from \"";

/// Goes on after the path.
pub const READ_AFTER: &'static str = "\". Details:\n";

/// Opens the report of a missing environment variable, up to its name.
pub const ENV_BEFORE: &'static str = "Failed to get $";

/// Goes on after the name.
pub const ENV_AFTER: &'static str = ". Details:\n";

/// The first line of every report: the word `Error.` in red.
pub const HEADER: &'static str = "\u{001b}[38;5;1mError.\u{001b}[0m\n";

/// Why a run ended without output. Each variant carries the diagnostic of
/// whatever failed underneath, word for word.
#[derive(Clone, Debug, PartialEq, Eq)]
pub enum FetchError {
    /// A script did not load or stopped with an error.
    Script { diagnostic: String },
    /// A script ran to its end and left no text in the output variable.
    OutputMissing { diagnostic: String },
    /// A template file is there and could not be read.
    Read { path: String, diagnostic: String },
    /// A command did not start, or printed what is not UTF-8.
    Command { command: String, diagnostic: String },
    /// An environment variable that the platform must set is not usable.
    Environment { variable: String, diagnostic: String },
}

/// A `FetchError` with its texts as character sequences.
pub enum FetchErrorView {
    Script { diagnostic: Seq<char> },
    OutputMissing { diagnostic: Seq<char> },
    Read { path: Seq<char>, diagnostic: Seq<char> },
    Command { command: Seq<char>, diagnostic: Seq<char> },
    Environment { variable: Seq<char>, diagnostic: Seq<char> },
}

impl View for FetchError {
    type V = FetchErrorView;

    open spec fn view(&self) -> FetchErrorView {
        match self {
            FetchError::Script { diagnostic } => FetchErrorView::Script { diagnostic: diagnostic@ },
            FetchError::OutputMissing { diagnostic } => FetchErrorView::OutputMissing {
                diagnostic: diagnostic@,
            },
            FetchError::Read { path, diagnostic } => FetchErrorView::Read {
                path: path@,
                diagnostic: diagnostic@,
            },
            FetchError::Command { command, diagnostic } => FetchErrorView::Command {
                command: command@,
                diagnostic: diagnostic@,
            },
            FetchError::Environment { variable, diagnostic } => FetchErrorView::Environment {
                variable: variable@,
                diagnostic: diagnostic@,
            },
        }
    }
}

impl FetchErrorView {
    /// The message of the failure: the words of its category, with the path,
    /// command or variable at fault, and then the diagnostic.
    pub open spec fn message(self) -> Seq<char> {
        match self {
            FetchErrorView::Script { diagnostic } => LUA@ + diagnostic,
            FetchErrorView::OutputMissing { diagnostic } => LUA@ + diagnostic,
            FetchErrorView::Read { path, diagnostic } => READ_BEFORE@ + path + READ_AFTER@
                + diagnostic,
            FetchErrorView::Command { command, diagnostic } => CMD_BEFORE@ + command + CMD_AFTER@
                + diagnostic,
            FetchErrorView::Environment { variable, diagnostic } => ENV_BEFORE@ + variable
                + ENV_AFTER@ + diagnostic,
        }
    }
}

/// `before`, then `name`, then `after`, then `diagnostic`.
fn framed(before: &str, name: &str, after: &str, diagnostic: &str) -> (text: String)
    ensures
        text@ == before@ + name@ + after@ + diagnostic@,
{
    let mut text = String::from_str(before);
    text.append(name);
    text.append(after);
    text.append(diagnostic);
    text
}

impl FetchError {
    /// The message of the failure.
    pub fn message(&self) -> (text: String)
        ensures
            text@ == self@.message(),
    {
        match self {
            FetchError::Script { diagnostic } => String::from_str(LUA).concat(diagnostic.as_str()),
            FetchError::OutputMissing { diagnostic } => String::from_str(LUA).concat(
                diagnostic.as_str(),
            ),
            FetchError::Read { path, diagnostic } => framed(
                READ_BEFORE,
                path.as_str(),
                READ_AFTER,
                diagnostic.as_str(),
            ),
            FetchError::Command { command, diagnostic } => framed(
                CMD_BEFORE,
                command.as_str(),
                CMD_AFTER,
                diagnostic.as_str(),
            ),
            FetchError::Environment { variable, diagnostic } => framed(
                ENV_BEFORE,
                variable.as_str(),
                ENV_AFTER,
                diagnostic.as_str(),
            ),
        }
    }

    /// The whole report of the failure, as it is shown before the run ends.
    pub fn report(&self) -> (text: String)
        ensures
            text@ == HEADER@ + self@.message(),
    {
        let message = self.message();
        handle(message.as_str())
    }
}

/// The report of a failure with the message `msg`: the header line, then the
/// message.
pub fn handle(msg: &str) -> (text: String)
    ensures
        text@ == HEADER@ + msg@,
{
    String::from_str(HEADER).concat(msg)
}

} // verus!
