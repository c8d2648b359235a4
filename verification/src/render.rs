//! The render pipeline: from a template to the text that it produces.
//!
//! A document is rendered from the user's own template when there is one,
//! and from the built-in template otherwise. The template runs in a fresh
//! interpreter that has been given the globals of the scripting context, and
//! the text that it leaves in the output variable is the result.

use crate::context::ScriptContext;
use crate::errors::{FetchError, FetchErrorView};
use crate::interpreter::{runs, sends, Interpreter, Request, OUTPUT};
use vstd::prelude::*;
use vstd::string::StringExecFns;

verus! {

/// The directory that holds the users' home directories.
pub const HOME: &'static str = "/home/";

/// Where, below a home directory, the template of the info panel lies.
pub const INFO_FILE: &'static str = "/.config/freshfetch/info.lua";

/// Where, below a home directory, the template of the whole output lies.
pub const LAYOUT_FILE: &'static str = "/.config/freshfetch/layout.lua";

/// The documents that are rendered from a template.
#[derive(Clone, Copy, Debug, PartialEq, Eq, Structural)]
pub enum Document {
    /// The info panel.
    Info,
    /// The whole output, which sets the art and the info panel side by side.
    Layout,
}

impl Document {
    /// Where, below a home directory, the user's template lies.
    pub open spec fn file(self) -> Seq<char> {
        match self {
            Document::Info => INFO_FILE@,
            Document::Layout => LAYOUT_FILE@,
        }
    }

    /// The path at which `user` can put a template of their own.
    pub fn override_path(&self, user: &str) -> (path: String)
        ensures
            path@ == HOME@ + user@ + self.file(),
    {
        let mut path = String::from_str(HOME);
        path.append(user);
        match self {
            Document::Info => path.append(INFO_FILE),
            Document::Layout => path.append(LAYOUT_FILE),
        }
        path
    }
}

/// What was found at the path of the user's template.
#[derive(Clone, Debug, PartialEq, Eq)]
pub enum TemplateFile {
    /// No file is there.
    Absent,
    /// A file is there, and reading it failed with `diagnostic`.
    Unreadable { diagnostic: String },
    /// A file is there, and it holds `source`.
    Loaded { source: String },
}

/// A template: the user's, as far as there is one, and the built-in one.
#[derive(Clone, Debug, PartialEq, Eq)]
pub struct Template {
    /// The path of the user's template.
    pub path: String,
    /// What was found at `path`.
    pub file: TemplateFile,
    /// The built-in source.
    pub default_source: String,
}

impl Template {
    /// The source to run, or the failure to read it: the user's source where
    /// a file is there, the built-in source where none is. A file that is
    /// there and cannot be read is a failure that names the path. It is
    /// never passed over in favour of the built-in source.
    pub open spec fn resolved(&self) -> Result<Seq<char>, FetchErrorView> {
        match self.file {
            TemplateFile::Absent => Ok(self.default_source@),
            TemplateFile::Loaded { source } => Ok(source@),
            TemplateFile::Unreadable { diagnostic } => Err(
                FetchErrorView::Read { path: self.path@, diagnostic: diagnostic@ },
            ),
        }
    }

    /// The source to run, or the failure to read it.
    pub fn resolve(&self) -> (r: Result<&str, FetchError>)
        ensures
            match r {
                Ok(source) => self.resolved() == Ok::<Seq<char>, FetchErrorView>(source@),
                Err(e) => self.resolved() == Err::<Seq<char>, FetchErrorView>(e@),
            },
    {
        match &self.file {
            TemplateFile::Absent => Ok(self.default_source.as_str()),
            TemplateFile::Loaded { source } => Ok(source.as_str()),
            TemplateFile::Unreadable { diagnostic } => Err(
                FetchError::Read { path: self.path.clone(), diagnostic: diagnostic.clone() },
            ),
        }
    }
}

/// What an interpreter is asked in one pass that renders `source` in `ctx`,
/// in order: to run each prelude of `ctx`, to bind each global of `ctx`, to
/// run `source`, and to give what the output variable holds.
pub open spec fn pass(ctx: &ScriptContext, source: Seq<char>) -> Seq<Request> {
    runs(ctx.preludes()) + sends(ctx.writes()) + seq![
        Request::Run(source),
        Request::Read(OUTPUT@),
    ]
}

/// `after` is `before` and then the first requests of `asked`: at least one
/// of them, and not all.
pub open spec fn cut_short(before: Seq<Request>, asked: Seq<Request>, after: Seq<Request>) -> bool {
    exists|k: int| 1 <= k < asked.len() && after == before + #[trigger] asked.take(k)
}

/// A result of rendering with its texts as character sequences.
pub open spec fn outcome(r: Result<String, FetchError>) -> Result<Seq<char>, FetchErrorView> {
    match r {
        Ok(text) => Ok(text@),
        Err(e) => Err(e@),
    }
}

/// What one pass that renders `template` in `ctx` makes of an interpreter,
/// which was `before` and is `after`, where the pass ends in `result`.
///
/// Where the user's file could not be read, that failure is the result and
/// the interpreter is as it was. Otherwise:
/// - on success the interpreter was asked the whole pass, and the result is
///   the text that it gave;
/// - a missing output comes after the whole pass, of which the reading of
///   the output is the last request;
/// - a script failure comes after a first part of the pass that stops short
///   of its end: after a prelude, a global or the source has failed, the
///   output is not read.
///
/// No other failure comes of a pass.
pub open spec fn passed(
    before: Interpreter,
    after: Interpreter,
    ctx: &ScriptContext,
    template: &Template,
    result: Result<Seq<char>, FetchErrorView>,
) -> bool {
    match template.resolved() {
        Err(failure) => {
            &&& result == Err::<Seq<char>, FetchErrorView>(failure)
            &&& after.requests() == before.requests()
            &&& after.given() == before.given()
        },
        Ok(source) => match result {
            Ok(text) => {
                &&& after.requests() == before.requests() + pass(ctx, source)
                &&& after.given() == Some(text)
            },
            Err(e) => {
                &&& after.given() == before.given()
                &&& e is Script || e is OutputMissing
                &&& e is OutputMissing ==> after.requests() == before.requests() + pass(
                    ctx,
                    source,
                )
                &&& e is Script ==> cut_short(
                    before.requests(),
                    pass(ctx, source),
                    after.requests(),
                )
            },
        },
    }
}

/// Renders `template` in the context `ctx` with `interpreter`.
///
/// The source is resolved first: where the user's file could not be read,
/// that failure is the result and the interpreter is asked nothing.
/// Otherwise the interpreter is asked to run the preludes of `ctx`, to bind
/// the globals of `ctx`, to run the resolved source, and to give what the
/// output variable holds, in this order. On success it was asked all of
/// that, and the text is the one that it gave. The first request that fails
/// ends the pass, and nothing after it is asked: a prelude, a global or the
/// source fails with a script failure, the reading of the output with the
/// failure of a missing output.
pub fn render_in(interpreter: &mut Interpreter, ctx: &ScriptContext, template: &Template) -> (r:
    Result<String, FetchError>)
    ensures
        passed(*old(interpreter), *final(interpreter), ctx, template, outcome(r)),
{
    let source = match template.resolve() {
        Ok(source) => source,
        Err(e) => {
            return Err(e);
        },
    };
    let ghost before = interpreter.requests();
    let ghost first = runs(ctx.preludes());
    let ghost second = sends(ctx.writes());
    let ghost all = pass(ctx, source@);
    match interpreter.execute_all(ctx.prelude_sources()) {
        Ok(_) => {},
        Err(e) => {
            proof {
                let k = choose|k: int|
                    1 <= k <= ctx.preludes().len() && interpreter.requests() == before + runs(
                        #[trigger] ctx.preludes().take(k),
                    );
                assert(runs(ctx.preludes().take(k)) =~= all.take(k));
                assert(k < all.len());
                assert(interpreter.requests() == before + all.take(k));
            }
            return Err(e);
        },
    }
    match interpreter.load(ctx) {
        Ok(_) => {},
        Err(e) => {
            proof {
                let k = choose|k: int|
                    1 <= k <= ctx.writes().len() && interpreter.requests() == before + first
                        + sends(#[trigger] ctx.writes().take(k));
                assert(before + first + sends(ctx.writes().take(k)) =~= before + all.take(
                    first.len() + k,
                ));
                assert(first.len() + k < all.len());
                assert(interpreter.requests() == before + all.take(first.len() + k));
            }
            return Err(e);
        },
    }
    match interpreter.execute(source) {
        Ok(_) => {},
        Err(e) => {
            proof {
                assert((before + first + second).push(Request::Run(source@)) =~= before
                    + all.take(all.len() - 1));
                assert(interpreter.requests() == before + all.take(all.len() - 1));
            }
            return Err(e);
        },
    }
    let text = interpreter.output();
    proof {
        assert(all.take(all.len() as int) =~= all);
        assert((before + first + second).push(Request::Run(source@)).push(Request::Read(OUTPUT@))
            =~= before + all);
    }
    text
}

/// Renders `template` in the context `ctx`, with a fresh interpreter that
/// is asked what `render_in` says and is gone when the text is there.
///
/// The source is resolved first: where the user's file could not be read,
/// that failure is the result and no script runs. The first step that fails
/// ends the pass: a prelude, a global or the source with a script failure,
/// the reading of the output with the failure of a missing output.
pub fn render(ctx: &ScriptContext, template: &Template) -> (r: Result<String, FetchError>)
    ensures
        template.resolved() matches Err(failure) ==> r matches Err(e) && e@ == failure,
        template.resolved() is Ok ==> (r matches Err(e) ==> e is Script || e is OutputMissing),
{
    let mut interpreter = Interpreter::new();
    render_in(&mut interpreter, ctx, template)
}

} // verus!
