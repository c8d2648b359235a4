//! The scripting context: the globals that a template sees when it runs.
//!
//! Components publish their values here under stable names. A name is bound
//! at most once: publishing under a name that is bound already replaces the
//! value, whole, and never merges the two.

use vstd::prelude::*;

verus! {

/// A value that fits in one field of a record.
#[derive(Clone, Debug, PartialEq, Eq)]
pub enum Scalar {
    Integer(i128),
    Text(String),
}

/// A `Scalar` as a mathematical value.
pub enum ScalarView {
    Integer(int),
    Text(Seq<char>),
}

impl View for Scalar {
    type V = ScalarView;

    open spec fn view(&self) -> ScalarView {
        match self {
            Scalar::Integer(i) => ScalarView::Integer(*i as int),
            Scalar::Text(t) => ScalarView::Text(t@),
        }
    }
}

/// One named field of a record.
#[derive(Clone, Debug, PartialEq, Eq)]
pub struct Field {
    pub name: String,
    pub value: Scalar,
}

/// A `Field` as a mathematical value.
pub struct FieldView {
    pub name: Seq<char>,
    pub value: ScalarView,
}

impl View for Field {
    type V = FieldView;

    open spec fn view(&self) -> FieldView {
        FieldView { name: self.name@, value: self.value@ }
    }
}

impl Field {
    /// The field `name` with the integer `value`.
    pub fn integer(name: &str, value: i128) -> (field: Field)
        ensures
            field@ == (FieldView { name: name@, value: ScalarView::Integer(value as int) }),
    {
        Field { name: name.to_owned(), value: Scalar::Integer(value) }
    }

    /// The field `name` with the text `value`.
    pub fn text(name: &str, value: &str) -> (field: Field)
        ensures
            field@ == (FieldView { name: name@, value: ScalarView::Text(value@) }),
    {
        Field { name: name.to_owned(), value: Scalar::Text(value.to_owned()) }
    }
}

/// The fields of `fields` as mathematical values, in order.
pub open spec fn field_views(fields: Seq<Field>) -> Seq<FieldView> {
    fields.map_values(|f: Field| f@)
}

/// A value that a global can be bound to: an integer, a text, or a record
/// of named scalar fields.
#[derive(Clone, Debug, PartialEq, Eq)]
pub enum Value {
    Integer(i128),
    Text(String),
    Record(Vec<Field>),
}

/// A `Value` as a mathematical value.
pub enum ValueView {
    Integer(int),
    Text(Seq<char>),
    Record(Seq<FieldView>),
}

impl View for Value {
    type V = ValueView;

    open spec fn view(&self) -> ValueView {
        match self {
            Value::Integer(i) => ValueView::Integer(*i as int),
            Value::Text(t) => ValueView::Text(t@),
            Value::Record(fields) => ValueView::Record(field_views(fields@)),
        }
    }
}

/// A global: a name and the value bound to it.
#[derive(Clone, Debug, PartialEq, Eq)]
pub struct Binding {
    pub name: String,
    pub value: Value,
}

/// A write to the context: the name written to and the value written.
pub type Write = (Seq<char>, ValueView);

/// The globals that result from `globals` when `writes` are made one after
/// the other. A later write to a name replaces an earlier one.
pub open spec fn publish_all(globals: Map<Seq<char>, ValueView>, writes: Seq<Write>) -> Map<
    Seq<char>,
    ValueView,
>
    decreases writes.len(),
{
    if writes.len() == 0 {
        globals
    } else {
        publish_all(globals, writes.drop_last()).insert(writes.last().0, writes.last().1)
    }
}

/// Making the writes `a` and then the writes `b` is making the writes of
/// `a + b`.
pub proof fn lemma_publish_concat(globals: Map<Seq<char>, ValueView>, a: Seq<Write>, b: Seq<Write>)
    ensures
        publish_all(globals, a + b) == publish_all(publish_all(globals, a), b),
    decreases b.len(),
{
    if b.len() == 0 {
        assert(a + b =~= a);
    } else {
        assert((a + b).drop_last() =~= a + b.drop_last());
        lemma_publish_concat(globals, a, b.drop_last());
    }
}

/// The value that the last write to `name` among `writes` wrote, if there
/// is such a write.
pub open spec fn last_written(writes: Seq<Write>, name: Seq<char>) -> Option<ValueView>
    decreases writes.len(),
{
    if writes.len() == 0 {
        None
    } else if writes.last().0 == name {
        Some(writes.last().1)
    } else {
        last_written(writes.drop_last(), name)
    }
}

/// After a run of writes a name is bound to what was last written to it,
/// and a name that was not written to is as it was before.
pub proof fn lemma_publish_lookup(
    globals: Map<Seq<char>, ValueView>,
    writes: Seq<Write>,
    name: Seq<char>,
)
    ensures
        publish_all(globals, writes).contains_key(name) <==> globals.contains_key(name)
            || last_written(writes, name) is Some,
        publish_all(globals, writes)[name] == match last_written(writes, name) {
            Some(value) => value,
            None => globals[name],
        },
    decreases writes.len(),
{
    if writes.len() > 0 {
        lemma_publish_lookup(globals, writes.drop_last(), name);
    }
}

/// Publishing is idempotent: making the same writes a second time changes
/// nothing.
pub proof fn lemma_publish_twice(globals: Map<Seq<char>, ValueView>, writes: Seq<Write>)
    ensures
        publish_all(publish_all(globals, writes), writes) == publish_all(globals, writes),
{
    let once = publish_all(globals, writes);
    let twice = publish_all(once, writes);
    assert forall|name: Seq<char>| #[trigger]
        twice.dom().contains(name) == once.dom().contains(name) by {
        lemma_publish_lookup(globals, writes, name);
        lemma_publish_lookup(once, writes, name);
    }
    assert forall|name: Seq<char>| twice.dom().contains(name) implies #[trigger] twice[name]
        == once[name] by {
        lemma_publish_lookup(globals, writes, name);
        lemma_publish_lookup(once, writes, name);
    }
    assert(twice.dom() =~= once.dom());
    assert(twice =~= once);
}

/// The writes that bring an empty context to hold `bindings`.
pub open spec fn writes_of(bindings: Seq<Binding>) -> Seq<Write> {
    bindings.map_values(|b: Binding| (b.name@, b.value@))
}

/// No two of `bindings` have the same name.
pub open spec fn distinct_names(bindings: Seq<Binding>) -> bool {
    forall|i: int, j: int|
        0 <= i < j < bindings.len() ==> (#[trigger] bindings[i]).name@ != (
        #[trigger] bindings[j]).name@
}

/// One write binds its name to its value and leaves the rest as it is.
pub proof fn lemma_publish_one(globals: Map<Seq<char>, ValueView>, write: Write)
    ensures
        publish_all(globals, seq![write]) == globals.insert(write.0, write.1),
{
    assert(seq![write].drop_last() =~= Seq::<Write>::empty());
    assert(publish_all(globals, Seq::<Write>::empty()) == globals);
}

proof fn lemma_absent(bindings: Seq<Binding>, name: Seq<char>)
    requires
        forall|j: int| 0 <= j < bindings.len() ==> (#[trigger] bindings[j]).name@ != name,
    ensures
        !publish_all(Map::empty(), writes_of(bindings)).contains_key(name),
    decreases bindings.len(),
{
    if bindings.len() > 0 {
        assert(writes_of(bindings).drop_last() =~= writes_of(bindings.drop_last()));
        lemma_absent(bindings.drop_last(), name);
    }
}

proof fn lemma_present(bindings: Seq<Binding>, i: int)
    requires
        distinct_names(bindings),
        0 <= i < bindings.len(),
    ensures
        publish_all(Map::empty(), writes_of(bindings)).contains_key(bindings[i].name@),
        publish_all(Map::empty(), writes_of(bindings))[bindings[i].name@] == bindings[i].value@,
    decreases bindings.len(),
{
    assert(writes_of(bindings).drop_last() =~= writes_of(bindings.drop_last()));
    if i < bindings.len() - 1 {
        assert(bindings.drop_last()[i] == bindings[i]);
        lemma_present(bindings.drop_last(), i);
    }
}

proof fn lemma_replace(bindings: Seq<Binding>, i: int, binding: Binding)
    requires
        distinct_names(bindings),
        0 <= i < bindings.len(),
        binding.name@ == bindings[i].name@,
    ensures
        distinct_names(bindings.update(i, binding)),
        publish_all(Map::empty(), writes_of(bindings.update(i, binding))) == publish_all(
            Map::empty(),
            writes_of(bindings),
        ).insert(binding.name@, binding.value@),
    decreases bindings.len(),
{
    let after = bindings.update(i, binding);
    assert(distinct_names(after)) by {
        assert forall|a: int, b: int| 0 <= a < b < after.len() implies (#[trigger] after[a]).name@
            != (#[trigger] after[b]).name@ by {
            assert(after[a].name@ == bindings[a].name@);
            assert(after[b].name@ == bindings[b].name@);
        }
    }
    assert(writes_of(bindings).drop_last() =~= writes_of(bindings.drop_last()));
    assert(writes_of(after).drop_last() =~= writes_of(after.drop_last()));
    let rest = publish_all(Map::empty(), writes_of(bindings.drop_last()));
    if i == bindings.len() - 1 {
        assert(after.drop_last() =~= bindings.drop_last());
        assert(rest.insert(binding.name@, bindings[i].value@).insert(binding.name@, binding.value@)
            =~= rest.insert(binding.name@, binding.value@));
    } else {
        let last = bindings.last();
        assert(after.drop_last() =~= bindings.drop_last().update(i, binding));
        assert(bindings.drop_last()[i] == bindings[i]);
        lemma_replace(bindings.drop_last(), i, binding);
        assert(bindings[i].name@ != last.name@);
        assert(rest.insert(binding.name@, binding.value@).insert(last.name@, last.value@)
            =~= rest.insert(last.name@, last.value@).insert(binding.name@, binding.value@));
    }
}

/// The scripting context of one render pass: the scripts that set the
/// interpreter up, and the globals published so far.
pub struct ScriptContext {
    preludes: Vec<String>,
    bindings: Vec<Binding>,
}

impl ScriptContext {
    #[verifier::type_invariant]
    spec fn well_formed(self) -> bool {
        distinct_names(self.bindings@)
    }

    /// The globals as a map from each bound name to its value.
    pub closed spec fn globals(&self) -> Map<Seq<char>, ValueView> {
        publish_all(Map::empty(), writes_of(self.bindings@))
    }

    /// The writes that bring a context without globals to hold these
    /// globals: one for each binding, in the order in which the names were
    /// first published.
    pub closed spec fn writes(&self) -> Seq<Write> {
        writes_of(self.bindings@)
    }

    /// The globals are what the writes make of nothing, and there is one
    /// write for each binding.
    pub proof fn lemma_writes(&self)
        ensures
            self.globals() == publish_all(Map::empty(), self.writes()),
            self.writes().len() == self.count(),
    {
    }

    /// The number of bindings held.
    pub closed spec fn count(&self) -> nat {
        self.bindings@.len()
    }

    /// The binding at position `i`, counted in the order in which the names
    /// were first published.
    pub closed spec fn entry(&self, i: int) -> Binding {
        self.bindings@[i]
    }

    /// The scripts that run before any global is handed over, in order.
    pub closed spec fn preludes(&self) -> Seq<String> {
        self.preludes@
    }

    /// A context without globals and without preludes.
    pub fn new() -> (ctx: ScriptContext)
        ensures
            ctx.globals() == Map::<Seq<char>, ValueView>::empty(),
            ctx.count() == 0,
            ctx.preludes() == Seq::<String>::empty(),
    {
        ScriptContext { preludes: Vec::new(), bindings: Vec::new() }
    }

    /// A context without globals whose interpreter is set up by `preludes`.
    pub fn with_preludes(preludes: Vec<String>) -> (ctx: ScriptContext)
        ensures
            ctx.globals() == Map::<Seq<char>, ValueView>::empty(),
            ctx.count() == 0,
            ctx.preludes() == preludes@,
    {
        ScriptContext { preludes, bindings: Vec::new() }
    }

    /// The scripts that run before any global is handed over, in order.
    pub fn prelude_sources(&self) -> (sources: &Vec<String>)
        ensures
            sources@ == self.preludes(),
    {
        &self.preludes
    }

    /// Binds `name` to `value`. Whatever `name` was bound to before is gone;
    /// every other global stays as it is.
    pub fn publish(&mut self, name: String, value: Value)
        ensures
            final(self).globals() == old(self).globals().insert(name@, value@),
            final(self).preludes() == old(self).preludes(),
    {
        proof {
            use_type_invariant(&*self);
        }
        let mut bindings: Vec<Binding> = Vec::new();
        core::mem::swap(&mut self.bindings, &mut bindings);
        let n = bindings.len();
        let mut i: usize = 0;
        while i < n && !same_text(bindings[i].name.as_str(), name.as_str())
            invariant
                n == bindings.len(),
                i <= n,
                forall|j: int| 0 <= j < i ==> (#[trigger] bindings@[j]).name@ != name@,
            decreases n - i,
        {
            i = i + 1;
        }
        let binding = Binding { name, value };
        if i < n {
            proof {
                lemma_replace(bindings@, i as int, binding);
            }
            bindings.set(i, binding);
        } else {
            proof {
                let after = bindings@.push(binding);
                assert(writes_of(after).drop_last() =~= writes_of(bindings@));
                assert(after.drop_last() =~= bindings@);
            }
            bindings.push(binding);
        }
        core::mem::swap(&mut self.bindings, &mut bindings);
    }

    /// The value that `name` is bound to, if it is bound.
    pub fn get(&self, name: &str) -> (found: Option<&Value>)
        ensures
            match found {
                Some(value) => self.globals().contains_key(name@) && self.globals()[name@]
                    == value@,
                None => !self.globals().contains_key(name@),
            },
    {
        proof {
            use_type_invariant(self);
        }
        let n = self.bindings.len();
        let mut i: usize = 0;
        while i < n && !same_text(self.bindings[i].name.as_str(), name)
            invariant
                n == self.bindings.len(),
                i <= n,
                forall|j: int| 0 <= j < i ==> (#[trigger] self.bindings@[j]).name@ != name@,
            decreases n - i,
        {
            i = i + 1;
        }
        if i < n {
            proof {
                lemma_present(self.bindings@, i as int);
            }
            Some(&self.bindings[i].value)
        } else {
            proof {
                lemma_absent(self.bindings@, name@);
            }
            None
        }
    }

    /// The number of bindings held.
    pub fn len(&self) -> (n: usize)
        ensures
            n == self.count(),
            n == self.writes().len(),
    {
        self.bindings.len()
    }

    /// The binding at position `i`.
    pub fn binding(&self, i: usize) -> (b: &Binding)
        requires
            i < self.count(),
        ensures
            *b == self.entry(i as int),
            self.writes()[i as int] == (b.name@, b.value@),
            self.globals().contains_key(b.name@),
            self.globals()[b.name@] == b.value@,
    {
        proof {
            use_type_invariant(self);
            lemma_present(self.bindings@, i as int);
        }
        &self.bindings[i]
    }
}

/// Whether `a` and `b` hold the same characters.
pub fn same_text(a: &str, b: &str) -> (same: bool)
    ensures
        same == (a@ == b@),
{
    let x = a.to_owned();
    let y = b.to_owned();
    x == y
}

} // verus!
