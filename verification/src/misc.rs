//! The terminal that the output is written to.

use crate::context::{
    field_views, lemma_publish_one, Field, FieldView, ScalarView, ScriptContext, Value, ValueView,
    Write,
};
use crate::errors::FetchError;
use crate::inject::Inject;
use vstd::prelude::*;

verus! {

/// The size of the terminal, in character cells.
#[derive(Clone, Debug)]
pub struct Terminal {
    /// The number of columns.
    pub width: usize,
    /// The number of rows.
    pub height: usize,
}

impl Terminal {
    /// The terminal of `width` columns and `height` rows.
    pub fn new(width: usize, height: usize) -> (terminal: Terminal)
        ensures
            terminal.width == width,
            terminal.height == height,
    {
        Terminal { width, height }
    }

    /// The record that is published: `width` and `height`.
    pub open spec fn record(&self) -> Seq<FieldView> {
        seq![
            FieldView { name: "width"@, value: ScalarView::Integer(self.width as int) },
            FieldView { name: "height"@, value: ScalarView::Integer(self.height as int) },
        ]
    }
}

impl Inject for Terminal {
    open spec fn prepared(&self) -> bool {
        true
    }

    /// One write: the record, under the name `terminal`.
    open spec fn writes(&self) -> Seq<Write> {
        seq![("terminal"@, ValueView::Record(self.record()))]
    }

    /// Nothing to prepare.
    fn prep(&mut self) -> (r: Result<(), FetchError>)
        ensures
            r is Ok,
            *final(self) == *old(self),
    {
        Ok(())
    }

    fn inject(&self, ctx: &mut ScriptContext) {
        let fields = vec![
            Field::integer("width", self.width as i128),
            Field::integer("height", self.height as i128),
        ];
        let value = Value::Record(fields);
        proof {
            assert(field_views(fields@) =~= self.record());
            lemma_publish_one(ctx.globals(), ("terminal"@, value@));
        }
        ctx.publish("terminal".to_owned(), value);
    }
}

} // verus!
