//! A fact that is nothing but a named record.

use crate::context::{
    field_views, lemma_publish_one, Field, Scalar, ScriptContext, Value, ValueView, Write,
};
use crate::errors::FetchError;
use crate::inject::Inject;
use vstd::prelude::*;

verus! {

/// A fact about the machine: a name and the fields known under it.
#[derive(Clone, Debug, PartialEq, Eq)]
pub struct Record {
    /// The name of the global that the fields are published under.
    pub name: String,
    /// The fields, in the order in which they are written.
    pub fields: Vec<Field>,
}

/// A copy of `fields`.
pub fn copy_fields(fields: &Vec<Field>) -> (copy: Vec<Field>)
    ensures
        field_views(copy@) == field_views(fields@),
{
    let mut copy: Vec<Field> = Vec::new();
    let mut i: usize = 0;
    while i < fields.len()
        invariant
            i <= fields.len(),
            field_views(copy@) == field_views(fields@.take(i as int)),
        decreases fields.len() - i,
    {
        let field = &fields[i];
        let value = match &field.value {
            Scalar::Integer(n) => Scalar::Integer(*n),
            Scalar::Text(t) => Scalar::Text(t.clone()),
        };
        let next = Field { name: field.name.clone(), value };
        proof {
            assert(next@ == field@);
            assert(field_views(copy@.push(next)) =~= field_views(copy@).push(next@));
            assert(fields@.take(i + 1) =~= fields@.take(i as int).push(*field));
            assert(field_views(fields@.take(i as int).push(*field)) =~= field_views(
                fields@.take(i as int),
            ).push(field@));
        }
        copy.push(next);
        i = i + 1;
    }
    proof {
        assert(fields@.take(fields.len() as int) =~= fields@);
    }
    copy
}

impl Record {
    /// The record `name` with `fields`.
    pub fn new(name: String, fields: Vec<Field>) -> (record: Record)
        ensures
            record.name == name,
            record.fields == fields,
    {
        Record { name, fields }
    }
}

impl Inject for Record {
    open spec fn prepared(&self) -> bool {
        true
    }

    /// One write: the fields, under the record's name.
    open spec fn writes(&self) -> Seq<Write> {
        seq![(self.name@, ValueView::Record(field_views(self.fields@)))]
    }

    /// Nothing to prepare.
    fn prep(&mut self) -> (r: Result<(), FetchError>)
        ensures
            r is Ok,
            *final(self) == *old(self),
    {
        Ok(())
    }

    fn inject(&self, ctx: &mut ScriptContext) {
        let value = Value::Record(copy_fields(&self.fields));
        proof {
            lemma_publish_one(ctx.globals(), (self.name@, value@));
        }
        ctx.publish(self.name.clone(), value);
    }
}

} // verus!
