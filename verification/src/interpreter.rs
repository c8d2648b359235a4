//! The script interpreter: Lua, as the `mlua` crate embeds it.
//!
//! What the interpreter does with a script is not known here. Every call
//! into it is kept in a small function of its own whose result is taken as
//! it comes, and the decisions on those results are made in verified code.

use crate::context::{Field, Scalar, ScriptContext, Value, ValueView, Write};
use crate::errors::{FetchError, FetchErrorView};
use vstd::prelude::*;
use vstd::string::StringExecFns;

verus! {

/// The global that a template must leave its text in.
pub const OUTPUT: &'static str = "__freshfetch__";

#[verifier::external_type_specification]
#[verifier::external_body]
pub struct ExLua(mlua::Lua);

#[verifier::external_type_specification]
#[verifier::external_body]
pub struct ExLuaError(mlua::Error);

/// `mlua::Lua::new`: a fresh interpreter with the safe standard libraries.
/// Nothing is claimed of it.
#[verifier::external_body]
fn lua_new() -> mlua::Lua {
    mlua::Lua::new()
}

/// `mlua::Lua::load` and `mlua::Chunk::exec`: loads `source` and runs it.
/// Nothing is claimed of the outcome.
#[verifier::external_body]
fn lua_exec(lua: &mlua::Lua, source: &str) -> Result<(), mlua::Error> {
    lua.load(source).exec()
}

/// `mlua::Lua::globals` and `mlua::Table::set` with an integer value: binds
/// the global `name`. Nothing is claimed of the outcome.
#[verifier::external_body]
fn lua_set_integer(lua: &mlua::Lua, name: &str, value: i128) -> Result<(), mlua::Error> {
    lua.globals().set(name, value)
}

/// `mlua::Lua::globals` and `mlua::Table::set` with a string value: binds
/// the global `name`. Nothing is claimed of the outcome.
#[verifier::external_body]
fn lua_set_text(lua: &mlua::Lua, name: &str, value: &str) -> Result<(), mlua::Error> {
    lua.globals().set(name, value)
}

/// `mlua::Lua::create_table`, `mlua::Lua::globals` and `mlua::Table::set`:
/// binds the global `name` to a new, empty table of this interpreter.
/// Nothing is claimed of the outcome.
#[verifier::external_body]
fn lua_set_table(lua: &mlua::Lua, name: &str) -> Result<(), mlua::Error> {
    lua.globals().set(name, lua.create_table()?)
}

/// `mlua::Lua::globals`, `mlua::Table::get` asking for a table, and
/// `mlua::Table::set` with an integer value: sets the field `key` of the
/// table that the global `name` is bound to. Nothing is claimed of the
/// outcome.
#[verifier::external_body]
fn lua_set_field_integer(lua: &mlua::Lua, name: &str, key: &str, value: i128) -> Result<
    (),
    mlua::Error,
> {
    lua.globals().get::<_, mlua::Table>(name)?.set(key, value)
}

/// `mlua::Lua::globals`, `mlua::Table::get` asking for a table, and
/// `mlua::Table::set` with a string value: sets the field `key` of the table
/// that the global `name` is bound to. Nothing is claimed of the outcome.
#[verifier::external_body]
fn lua_set_field_text(lua: &mlua::Lua, name: &str, key: &str, value: &str) -> Result<
    (),
    mlua::Error,
> {
    lua.globals().get::<_, mlua::Table>(name)?.set(key, value)
}

/// `mlua::Lua::globals` and `mlua::Table::get` asking for the value as it
/// is, and `mlua::String::to_str` for a string: what the global `name`
/// holds, variant for variant. Nothing is claimed of the outcome.
#[verifier::external_body]
fn lua_get(lua: &mlua::Lua, name: &str) -> Result<Found, mlua::Error> {
    Ok(match lua.globals().get::<_, mlua::Value>(name)? {
        mlua::Value::String(text) => Found::Text(text.to_str()?.to_owned()),
        mlua::Value::Nil => Found::Nil,
        mlua::Value::Boolean(_) => Found::Boolean,
        mlua::Value::LightUserData(_) => Found::LightUserData,
        mlua::Value::Integer(_) => Found::Integer,
        mlua::Value::Number(_) => Found::Number,
        mlua::Value::Table(_) => Found::Table,
        mlua::Value::Function(_) => Found::Function,
        mlua::Value::Thread(_) => Found::Thread,
        mlua::Value::UserData(_) => Found::UserData,
        mlua::Value::Error(_) => Found::Error,
    })
}

/// The `Display` text of an `mlua::Error`: the interpreter's diagnostic.
#[verifier::external_body]
fn lua_diagnostic(error: &mlua::Error) -> String {
    error.to_string()
}

/// What a global was found to hold: the text of a string, or else the kind
/// of value that the interpreter has there.
#[derive(Clone, Debug, PartialEq, Eq)]
pub enum Found {
    /// A string, and its text.
    Text(String),
    /// Nothing: the global is not bound.
    Nil,
    Boolean,
    LightUserData,
    /// A whole number.
    Integer,
    /// A number with a fraction.
    Number,
    Table,
    Function,
    Thread,
    UserData,
    Error,
}

/// Opens the diagnostic of an output variable that holds no string.
pub const NO_STRING: &'static str = "expected a string in the output variable, found ";

/// Names nothing in that diagnostic.
pub const FOUND_NOTHING: &'static str = "nothing";

/// Names a number in that diagnostic.
pub const FOUND_NUMBER: &'static str = "a number";

/// Names any other value in that diagnostic.
pub const FOUND_OTHER: &'static str = "a value of another type";

impl Found {
    /// How the diagnostic names what was found, where that is no string:
    /// nothing, a number of either kind, or a value of another type.
    pub open spec fn named(self) -> Seq<char> {
        match self {
            Found::Text(_) => Seq::empty(),
            Found::Nil => FOUND_NOTHING@,
            Found::Integer => FOUND_NUMBER@,
            Found::Number => FOUND_NUMBER@,
            _ => FOUND_OTHER@,
        }
    }
}

/// What a step inside the interpreter comes to, given how the interpreter
/// answered: success stays success, and a diagnostic becomes a script
/// failure that carries it unchanged.
pub fn executed(outcome: Result<(), String>) -> (r: Result<(), FetchError>)
    ensures
        match outcome {
            Ok(_) => r is Ok,
            Err(diagnostic) => r matches Err(e) && e@ == (FetchErrorView::Script {
                diagnostic: diagnostic@,
            }),
        },
{
    match outcome {
        Ok(_) => Ok(()),
        Err(diagnostic) => Err(FetchError::Script { diagnostic }),
    }
}

/// What reading the output variable comes to, given how the interpreter
/// answered. Only a string is an output, and its text is the rendered
/// output as it is. Anything else that was found is a missing output whose
/// diagnostic says what was found: a number is no output, nor is nothing.
/// A read that failed is a missing output with the interpreter's
/// diagnostic. No failure ever yields a text, not even an empty one.
pub fn extracted(outcome: Result<Found, String>) -> (r: Result<String, FetchError>)
    ensures
        match outcome {
            Ok(Found::Text(text)) => r matches Ok(t) && t@ == text@,
            Ok(found) => r matches Err(e) && e@ == (FetchErrorView::OutputMissing {
                diagnostic: NO_STRING@ + found.named(),
            }),
            Err(diagnostic) => r matches Err(e) && e@ == (FetchErrorView::OutputMissing {
                diagnostic: diagnostic@,
            }),
        },
{
    let found = match outcome {
        Ok(Found::Text(text)) => {
            return Ok(text);
        },
        Ok(Found::Nil) => FOUND_NOTHING,
        Ok(Found::Integer) => FOUND_NUMBER,
        Ok(Found::Number) => FOUND_NUMBER,
        Ok(_) => FOUND_OTHER,
        Err(diagnostic) => {
            return Err(FetchError::OutputMissing { diagnostic });
        },
    };
    Err(FetchError::OutputMissing { diagnostic: String::from_str(NO_STRING).concat(found) })
}

/// What the interpreter can be asked to do.
pub enum Request {
    /// To run a script: the source.
    Run(Seq<char>),
    /// To bind a global: the name and the value.
    Write(Seq<char>, ValueView),
    /// To give the text of a global: the name.
    Read(Seq<char>),
}

/// The requests that run `sources`, one after the other.
pub open spec fn runs(sources: Seq<String>) -> Seq<Request> {
    sources.map_values(|source: String| Request::Run(source@))
}

/// The requests that make `writes`, one after the other.
pub open spec fn sends(writes: Seq<Write>) -> Seq<Request> {
    writes.map_values(|write: Write| Request::Write(write.0, write.1))
}

/// An interpreter for one render pass. It keeps the record of what it has
/// been asked, in order, whether or not the request succeeded, and of the
/// output that it last gave.
pub struct Interpreter {
    lua: mlua::Lua,
    asked: Ghost<Seq<Request>>,
    gave: Ghost<Option<Seq<char>>>,
}

impl Interpreter {
    /// What the interpreter has been asked so far, in order.
    pub closed spec fn requests(&self) -> Seq<Request> {
        self.asked@
    }

    /// The text that the interpreter gave when it was last asked for the
    /// output and had one, if that has happened yet.
    pub closed spec fn given(&self) -> Option<Seq<char>> {
        self.gave@
    }

    /// A fresh interpreter, which has been asked nothing and has given
    /// nothing.
    pub fn new() -> (interpreter: Interpreter)
        ensures
            interpreter.requests() == Seq::<Request>::empty(),
            interpreter.given() is None,
    {
        Interpreter { lua: lua_new(), asked: Ghost(Seq::empty()), gave: Ghost(None) }
    }

    /// Asks the interpreter to run `source`. Fails with a script failure,
    /// and with nothing else, when the interpreter reports an error.
    pub fn execute(&mut self, source: &str) -> (r: Result<(), FetchError>)
        ensures
            final(self).requests() == old(self).requests().push(Request::Run(source@)),
            final(self).given() == old(self).given(),
            r matches Err(e) ==> e is Script,
    {
        self.asked = Ghost(self.asked@.push(Request::Run(source@)));
        match lua_exec(&self.lua, source) {
            Ok(_) => executed(Ok(())),
            Err(error) => executed(Err(lua_diagnostic(&error))),
        }
    }

    /// Asks the interpreter to run each of `sources`, in order, and stops at
    /// the first that fails. On success all of them were run. On failure the
    /// ones up to the one that failed were run, and none after it. Without
    /// sources there is nothing to fail.
    pub fn execute_all(&mut self, sources: &Vec<String>) -> (r: Result<(), FetchError>)
        ensures
            sources@.len() == 0 ==> r is Ok,
            r is Ok ==> final(self).requests() == old(self).requests() + runs(sources@),
            r is Err ==> exists|k: int|
                1 <= k <= sources@.len() && final(self).requests() == old(self).requests()
                    + runs(#[trigger] sources@.take(k)),
            final(self).given() == old(self).given(),
            r matches Err(e) ==> e is Script,
    {
        let mut i: usize = 0;
        proof {
            assert(old(self).requests() + runs(sources@.take(0)) =~= old(self).requests());
        }
        while i < sources.len()
            invariant
                i <= sources.len(),
                self.requests() == old(self).requests() + runs(sources@.take(i as int)),
                self.given() == old(self).given(),
            decreases sources.len() - i,
        {
            proof {
                assert(runs(sources@.take(i + 1)) =~= runs(sources@.take(i as int)).push(
                    Request::Run(sources@[i as int]@),
                ));
                assert((old(self).requests() + runs(sources@.take(i as int))).push(
                    Request::Run(sources@[i as int]@),
                ) =~= old(self).requests() + runs(sources@.take(i + 1)));
            }
            match self.execute(sources[i].as_str()) {
                Ok(_) => {},
                Err(e) => {
                    return Err(e);
                },
            }
            i = i + 1;
        }
        proof {
            assert(sources@.take(sources@.len() as int) =~= sources@);
        }
        Ok(())
    }

    /// Writes the fields of a record into the table that the global `name`
    /// is bound to, in order, and stops at the first write that fails.
    fn fill(&self, name: &str, fields: &Vec<Field>) -> (r: Result<(), mlua::Error>)
        ensures
            fields@.len() == 0 ==> r is Ok,
    {
        let mut i: usize = 0;
        while i < fields.len()
            invariant
                i <= fields.len(),
            decreases fields.len() - i,
        {
            let field = &fields[i];
            let written = match &field.value {
                Scalar::Integer(value) => lua_set_field_integer(
                    &self.lua,
                    name,
                    field.name.as_str(),
                    *value,
                ),
                Scalar::Text(value) => lua_set_field_text(
                    &self.lua,
                    name,
                    field.name.as_str(),
                    value.as_str(),
                ),
            };
            match written {
                Ok(_) => {},
                Err(error) => {
                    return Err(error);
                },
            }
            i = i + 1;
        }
        Ok(())
    }

    /// Asks the interpreter to bind the global `name` to `value`: an integer
    /// or a text as it is, a record as a new table that is then given the
    /// fields.
    fn write(&mut self, name: &str, value: &Value) -> (r: Result<(), mlua::Error>)
        ensures
            final(self).requests() == old(self).requests().push(Request::Write(name@, value@)),
            final(self).given() == old(self).given(),
    {
        self.asked = Ghost(self.asked@.push(Request::Write(name@, value@)));
        match value {
            Value::Integer(i) => lua_set_integer(&self.lua, name, *i),
            Value::Text(text) => lua_set_text(&self.lua, name, text.as_str()),
            Value::Record(fields) => {
                match lua_set_table(&self.lua, name) {
                    Ok(_) => self.fill(name, fields),
                    Err(error) => Err(error),
                }
            },
        }
    }

    /// Hands the globals of `ctx` over to the interpreter, in the order in
    /// which their names were first published, and stops at the first write
    /// that fails. On success every global was written. On failure the ones
    /// up to the one that failed were written, and none after it. Without
    /// globals there is nothing to fail.
    pub fn load(&mut self, ctx: &ScriptContext) -> (r: Result<(), FetchError>)
        ensures
            ctx.count() == 0 ==> r is Ok,
            r is Ok ==> final(self).requests() == old(self).requests() + sends(ctx.writes()),
            r is Err ==> exists|k: int|
                1 <= k <= ctx.writes().len() && final(self).requests() == old(self).requests()
                    + sends(#[trigger] ctx.writes().take(k)),
            final(self).given() == old(self).given(),
            r matches Err(e) ==> e is Script,
    {
        let n = ctx.len();
        let mut i: usize = 0;
        proof {
            assert(old(self).requests() + sends(ctx.writes().take(0)) =~= old(self).requests());
        }
        while i < n
            invariant
                n == ctx.count(),
                n == ctx.writes().len(),
                i <= n,
                self.requests() == old(self).requests() + sends(ctx.writes().take(i as int)),
                self.given() == old(self).given(),
            decreases n - i,
        {
            let binding = ctx.binding(i);
            proof {
                let write = ctx.writes()[i as int];
                assert(sends(ctx.writes().take(i + 1)) =~= sends(ctx.writes().take(i as int)).push(
                    Request::Write(write.0, write.1),
                ));
                assert((old(self).requests() + sends(ctx.writes().take(i as int))).push(
                    Request::Write(write.0, write.1),
                ) =~= old(self).requests() + sends(ctx.writes().take(i + 1)));
            }
            match self.write(binding.name.as_str(), &binding.value) {
                Ok(_) => {},
                Err(error) => {
                    return executed(Err(lua_diagnostic(&error)));
                },
            }
            i = i + 1;
        }
        proof {
            assert(ctx.writes().take(n as int) =~= ctx.writes());
        }
        Ok(())
    }

    /// Asks the interpreter for what the scripts run so far have left in the
    /// output variable. Only a string is an output, and its text is what is
    /// given and kept on record. Fails with the failure of a missing output,
    /// and with nothing else, and then the record of what was given stays.
    pub fn output(&mut self) -> (r: Result<String, FetchError>)
        ensures
            final(self).requests() == old(self).requests().push(Request::Read(OUTPUT@)),
            match r {
                Ok(text) => final(self).given() == Some(text@),
                Err(e) => e is OutputMissing && final(self).given() == old(self).given(),
            },
    {
        self.asked = Ghost(self.asked@.push(Request::Read(OUTPUT@)));
        let found = match lua_get(&self.lua, OUTPUT) {
            Ok(found) => extracted(Ok(found)),
            Err(error) => extracted(Err(lua_diagnostic(&error))),
        };
        match found {
            Ok(text) => {
                self.gave = Ghost(Some(text@));
                Ok(text)
            },
            Err(e) => Err(e),
        }
    }
}

} // verus!
