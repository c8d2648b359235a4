//! Which shell the user runs, and in which version.
//!
//! Finding the shell takes work outside the library: reading the
//! environment and, for some shells, running the shell. The functions here
//! decide what is needed next and what each answer means. The caller does
//! the reading and the running.

use crate::context::{
    field_views, lemma_publish_one, same_text, Field, FieldView, ScalarView, ScriptContext, Value,
    ValueView, Write,
};
use crate::errors::{FetchError, FetchErrorView};
use crate::inject::Inject;
use vstd::prelude::*;
use vstd::utf8::{decode_utf8, valid_utf8};

verus! {

/// The environment variable that names the user's shell.
pub const VARIABLE: &'static str = "SHELL";

/// What is reported when the variable holds no file name.
pub const INVALID: &'static str = "$SHELL is invalid!";

/// The shell that is asked for its version.
pub const ZSH: &'static str = "zsh";

/// The flag that makes the shell run the script that follows.
pub const ZSH_FLAG: &'static str = "-c";

/// The script that prints the version.
pub const ZSH_SCRIPT: &'static str = "printf $ZSH_VERSION";

/// The command, as it is named in a report.
pub const ZSH_COMMAND: &'static str = "zsh -c printf $ZSH_VERSION";

/// What is reported when the command ran and did not succeed.
pub const UNSUCCESSFUL: &'static str = "The command did not succeed.";

/// What is reported when the command printed what is not UTF-8.
pub const NOT_UTF8: &'static str = "The output contained invalid UTF-8.";

/// The user's shell.
#[derive(Clone, Debug, PartialEq, Eq)]
pub struct Shell {
    /// The name of the shell's program, empty where it is not looked for.
    pub name: String,
    /// The version of the shell, empty where the shell is not asked.
    pub version: String,
}

/// A command that prints the version of a shell.
#[derive(Clone, Debug, PartialEq, Eq)]
pub struct VersionCommand {
    /// The program to run.
    pub program: String,
    /// The arguments to give it, in order.
    pub arguments: Vec<String>,
}

/// What finding the shell needs next.
#[derive(Clone, Debug, PartialEq, Eq)]
pub enum ShellProbe {
    /// The value of the environment variable `SHELL`.
    Variable,
    /// What the command `command` gave, which prints the version of the
    /// shell `name`.
    Version { name: String, command: VersionCommand },
    /// Nothing: the shell is found.
    Done { shell: Shell },
}

/// How a command ended.
#[derive(Clone, Debug, PartialEq, Eq)]
pub enum CommandOutput {
    /// It did not start. `diagnostic` says why.
    Failed { diagnostic: String },
    /// It ran to its end and printed `stdout`.
    Finished { success: bool, stdout: Vec<u8> },
}

/// Whether `name` names a kernel on which the variable must be set.
pub open spec fn has_variable(name: Seq<char>) -> bool {
    name == "Linux"@ || name == "BSD"@ || name == "Windows"@
}

/// Whether the shell `name` is asked for its version.
pub open spec fn is_asked(name: Seq<char>) -> bool {
    name == ZSH@
}

/// Whether `command` is the command that prints the version: the shell,
/// with the flag and the script as its arguments.
pub open spec fn is_version_command(command: VersionCommand) -> bool {
    &&& command.program@ == ZSH@
    &&& command.arguments@.len() == 2
    &&& command.arguments@[0]@ == ZSH_FLAG@
    &&& command.arguments@[1]@ == ZSH_SCRIPT@
}

/// The final component of the path `path`, where it has one, as std's
/// `Path::file_name` gives it.
pub uninterp spec fn final_component_of(path: Seq<char>) -> Option<Seq<char>>;

/// std's `Path::file_name`: the final component of `path`, where it has
/// one.
///
/// Claimed: the result depends on the path alone.
#[verifier::external_body]
fn final_component(path: &str) -> (component: Option<String>)
    ensures
        match component {
            Some(name) => final_component_of(path@) == Some(name@),
            None => final_component_of(path@) is None,
        },
{
    std::path::Path::new(path).file_name().map(|name| name.to_string_lossy().into_owned())
}

/// std's `String::from_utf8`: the text that `bytes` encode.
///
/// Claimed: there is a text exactly when `bytes` are valid UTF-8, and it is
/// the text that they decode to.
#[verifier::external_body]
fn utf8_text(bytes: Vec<u8>) -> (text: Option<String>)
    ensures
        text is Some <==> valid_utf8(bytes@),
        text matches Some(t) ==> t@ == decode_utf8(bytes@),
{
    String::from_utf8(bytes).ok()
}

impl Shell {
    /// Starts finding the shell on the kernel `kernel_name`. Where the
    /// variable must be set, its value is needed next. Elsewhere the shell
    /// is not looked for, and its name and version are empty.
    pub fn new(kernel_name: &str) -> (probe: ShellProbe)
        ensures
            has_variable(kernel_name@) ==> probe is Variable,
            !has_variable(kernel_name@) ==> (probe matches ShellProbe::Done { shell }
                && shell.name@.len() == 0 && shell.version@.len() == 0),
    {
        if same_text(kernel_name, "Linux") || same_text(kernel_name, "BSD") || same_text(
            kernel_name,
            "Windows",
        ) {
            ShellProbe::Variable
        } else {
            ShellProbe::Done { shell: Shell { name: String::new(), version: String::new() } }
        }
    }

    /// Goes on with what reading the variable gave: its value, or the
    /// diagnostic of the failed read. A failed read is an environment
    /// failure that carries the diagnostic. A value is a path, and its final
    /// component is the shell's name: without one the variable is invalid,
    /// which is an environment failure; a shell that is asked for its
    /// version needs the outcome of the command next, which the probe
    /// names; any other shell is found, with an empty version.
    pub fn named(variable: Result<String, String>) -> (r: Result<ShellProbe, FetchError>)
        ensures
            match variable {
                Err(diagnostic) => r matches Err(e) && e@ == (FetchErrorView::Environment {
                    variable: VARIABLE@,
                    diagnostic: diagnostic@,
                }),
                Ok(path) => match final_component_of(path@) {
                    None => r matches Err(e) && e@ == (FetchErrorView::Environment {
                        variable: VARIABLE@,
                        diagnostic: INVALID@,
                    }),
                    Some(name) => if is_asked(name) {
                        r matches Ok(ShellProbe::Version { name: n, command }) && n@ == name
                            && is_version_command(command)
                    } else {
                        r matches Ok(ShellProbe::Done { shell }) && shell.name@ == name
                            && shell.version@.len() == 0
                    },
                },
            },
    {
        match variable {
            Ok(path) => Self::identified(final_component(path.as_str())),
            Err(diagnostic) => Err(
                FetchError::Environment { variable: VARIABLE.to_owned(), diagnostic },
            ),
        }
    }

    /// Goes on with the final component of the variable's value. Without
    /// one the variable is invalid, which is an environment failure. With
    /// one, that is the shell's name: a shell that is asked for its version
    /// needs the outcome of the command next, which the probe names, and any
    /// other shell is found, with an empty version.
    pub fn identified(component: Option<String>) -> (r: Result<ShellProbe, FetchError>)
        ensures
            match component {
                None => r matches Err(e) && e@ == (FetchErrorView::Environment {
                    variable: VARIABLE@,
                    diagnostic: INVALID@,
                }),
                Some(name) => if is_asked(name@) {
                    r matches Ok(ShellProbe::Version { name: n, command }) && n@ == name@
                        && is_version_command(command)
                } else {
                    r matches Ok(ShellProbe::Done { shell }) && shell.name@ == name@
                        && shell.version@.len() == 0
                },
            },
    {
        match component {
            None => Err(
                FetchError::Environment {
                    variable: VARIABLE.to_owned(),
                    diagnostic: INVALID.to_owned(),
                },
            ),
            Some(name) => {
                match Self::version_command(name.as_str()) {
                    Some(command) => Ok(ShellProbe::Version { name, command }),
                    None => Ok(ShellProbe::Done { shell: Shell { name, version: String::new() } }),
                }
            },
        }
    }

    /// The command that prints the version of the shell `name`, where that
    /// shell is asked.
    pub fn version_command(name: &str) -> (command: Option<VersionCommand>)
        ensures
            command is Some <==> is_asked(name@),
            command matches Some(c) ==> is_version_command(c),
    {
        if same_text(name, ZSH) {
            Some(
                VersionCommand {
                    program: ZSH.to_owned(),
                    arguments: vec![ZSH_FLAG.to_owned(), ZSH_SCRIPT.to_owned()],
                },
            )
        } else {
            None
        }
    }

    /// Ends the finding of the shell `name` with the outcome of the command
    /// that prints its version. The version is what the command printed,
    /// read as UTF-8. A command that did not start, did not succeed, or
    /// printed what is not UTF-8 is a command failure.
    pub fn versioned(name: String, output: CommandOutput) -> (r: Result<Shell, FetchError>)
        ensures
            match output {
                CommandOutput::Failed { diagnostic } => r matches Err(e) && e@ == (
                FetchErrorView::Command { command: ZSH_COMMAND@, diagnostic: diagnostic@ }),
                CommandOutput::Finished { success, stdout } => if !success {
                    r matches Err(e) && e@ == (FetchErrorView::Command {
                        command: ZSH_COMMAND@,
                        diagnostic: UNSUCCESSFUL@,
                    })
                } else if !valid_utf8(stdout@) {
                    r matches Err(e) && e@ == (FetchErrorView::Command {
                        command: ZSH_COMMAND@,
                        diagnostic: NOT_UTF8@,
                    })
                } else {
                    r matches Ok(shell) && shell.name@ == name@ && shell.version@ == decode_utf8(
                        stdout@,
                    )
                },
            },
    {
        match output {
            CommandOutput::Failed { diagnostic } => Err(
                FetchError::Command { command: ZSH_COMMAND.to_owned(), diagnostic },
            ),
            CommandOutput::Finished { success, stdout } => {
                if !success {
                    Err(
                        FetchError::Command {
                            command: ZSH_COMMAND.to_owned(),
                            diagnostic: UNSUCCESSFUL.to_owned(),
                        },
                    )
                } else {
                    match utf8_text(stdout) {
                        Some(version) => Ok(Shell { name, version }),
                        None => Err(
                            FetchError::Command {
                                command: ZSH_COMMAND.to_owned(),
                                diagnostic: NOT_UTF8.to_owned(),
                            },
                        ),
                    }
                }
            },
        }
    }

    /// The record that is published: `name` and `version`.
    pub open spec fn record(&self) -> Seq<FieldView> {
        seq![
            FieldView { name: "name"@, value: ScalarView::Text(self.name@) },
            FieldView { name: "version"@, value: ScalarView::Text(self.version@) },
        ]
    }
}

impl Inject for Shell {
    open spec fn prepared(&self) -> bool {
        true
    }

    /// One write: the record, under the name `shell`.
    open spec fn writes(&self) -> Seq<Write> {
        seq![("shell"@, ValueView::Record(self.record()))]
    }

    /// Nothing to prepare.
    fn prep(&mut self) -> (r: Result<(), FetchError>)
        ensures
            r is Ok,
            *final(self) == *old(self),
    {
        Ok(())
    }

    fn inject(&self, ctx: &mut ScriptContext) {
        let fields = vec![
            Field::text("name", self.name.as_str()),
            Field::text("version", self.version.as_str()),
        ];
        let value = Value::Record(fields);
        proof {
            assert(field_views(fields@) =~= self.record());
            lemma_publish_one(ctx.globals(), ("shell"@, value@));
        }
        ctx.publish("shell".to_owned(), value);
    }
}

} // verus!
