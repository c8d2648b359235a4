//! How much memory the machine has and how much of it is in use.

use crate::context::{
    lemma_publish_one, Field, FieldView, ScalarView, ScriptContext, Value, ValueView, Write,
};
use crate::errors::FetchError;
use crate::inject::Inject;
use vstd::prelude::*;

verus! {

/// The memory of the machine, in the unit in which it was measured.
#[derive(Clone, Debug)]
pub struct Memory {
    /// All the memory there is.
    pub max: u64,
    /// The part of it that is in use.
    pub used: u64,
}

impl Memory {
    /// The memory fact with `max` in all and `used` in use.
    pub fn new(max: u64, used: u64) -> (memory: Memory)
        ensures
            memory.max == max,
            memory.used == used,
    {
        Memory { max, used }
    }

    /// The record that is published: `max` and `used`.
    pub open spec fn record(&self) -> Seq<FieldView> {
        seq![
            FieldView { name: "max"@, value: ScalarView::Integer(self.max as int) },
            FieldView { name: "used"@, value: ScalarView::Integer(self.used as int) },
        ]
    }
}

impl Inject for Memory {
    open spec fn prepared(&self) -> bool {
        true
    }

    /// One write: the record, under the name `memory`.
    open spec fn writes(&self) -> Seq<Write> {
        seq![("memory"@, ValueView::Record(self.record()))]
    }

    /// Nothing to prepare.
    fn prep(&mut self) -> (r: Result<(), FetchError>)
        ensures
            r is Ok,
            *final(self) == *old(self),
    {
        Ok(())
    }

    fn inject(&self, ctx: &mut ScriptContext) {
        let fields = vec![
            Field::integer("max", self.max as i128),
            Field::integer("used", self.used as i128),
        ];
        let value = Value::Record(fields);
        proof {
            assert(value@ == ValueView::Record(self.record())) by {
                assert(crate::context::field_views(fields@) =~= self.record());
            }
            lemma_publish_one(ctx.globals(), ("memory"@, value@));
        }
        ctx.publish("memory".to_owned(), value);
    }
}

} // verus!
