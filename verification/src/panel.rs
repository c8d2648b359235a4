//! A rendered text that is kept together with its visual dimensions.

use crate::context::{publish_all, ScriptContext, Value, ValueView, Write};
use crate::metrics::{measure, visual_height, visual_width, Dimensions};
use vstd::prelude::*;

verus! {

/// A rendered text and its visual dimensions. The dimensions are always
/// those of the text held: there is no way to change one without the other.
#[derive(Debug)]
pub struct Panel {
    text: String,
    dimensions: Dimensions,
}

impl View for Panel {
    type V = Seq<char>;

    /// The text held.
    closed spec fn view(&self) -> Seq<char> {
        self.text@
    }
}

impl Panel {
    #[verifier::type_invariant]
    spec fn measured(self) -> bool {
        &&& self.dimensions.width == visual_width(self.text@)
        &&& self.dimensions.height == visual_height(self.text@)
    }

    /// The panel of `text`.
    pub fn new(text: String) -> (panel: Panel)
        ensures
            panel@ == text@,
    {
        let dimensions = measure(text.as_str());
        Panel { text, dimensions }
    }

    /// The text held.
    pub fn text(&self) -> (text: &str)
        ensures
            text@ == self@,
    {
        self.text.as_str()
    }

    /// The visual width of the text held.
    pub fn width(&self) -> (width: usize)
        ensures
            width == visual_width(self@),
    {
        proof {
            use_type_invariant(self);
        }
        self.dimensions.width
    }

    /// The visual height of the text held.
    pub fn height(&self) -> (height: usize)
        ensures
            height == visual_height(self@),
    {
        proof {
            use_type_invariant(self);
        }
        self.dimensions.height
    }

    /// The writes that publish the panel: the text under `name`, then its
    /// visual width under `width_name`, then its visual height under
    /// `height_name`. The three are always of the same text.
    pub open spec fn writes(
        &self,
        name: Seq<char>,
        width_name: Seq<char>,
        height_name: Seq<char>,
    ) -> Seq<Write> {
        seq![
            (name, ValueView::Text(self@)),
            (width_name, ValueView::Integer(visual_width(self@) as int)),
            (height_name, ValueView::Integer(visual_height(self@) as int)),
        ]
    }

    /// Publishes the panel to `ctx` under the three names.
    pub fn inject(&self, ctx: &mut ScriptContext, name: &str, width_name: &str, height_name: &str)
        ensures
            final(ctx).globals() == publish_all(
                old(ctx).globals(),
                self.writes(name@, width_name@, height_name@),
            ),
            final(ctx).preludes() == old(ctx).preludes(),
    {
        let ghost writes = self.writes(name@, width_name@, height_name@);
        proof {
            let start = ctx.globals();
            assert(writes.drop_last().drop_last().drop_last() =~= Seq::<Write>::empty());
            assert(publish_all(start, Seq::<Write>::empty()) == start);
            assert(publish_all(start, writes.drop_last().drop_last()) == start.insert(
                writes[0].0,
                writes[0].1,
            ));
            assert(publish_all(start, writes.drop_last()) == start.insert(
                writes[0].0,
                writes[0].1,
            ).insert(writes[1].0, writes[1].1));
        }
        ctx.publish(name.to_owned(), Value::Text(self.text().to_owned()));
        ctx.publish(width_name.to_owned(), Value::Integer(self.width() as i128));
        ctx.publish(height_name.to_owned(), Value::Integer(self.height() as i128));
    }
}

/// Publishing a panel under three different names binds the first to the
/// text and the other two to the width and the height of that same text,
/// whatever was bound before. Every other name stays as it was.
pub proof fn lemma_published_together(
    panel: Panel,
    globals: Map<Seq<char>, ValueView>,
    name: Seq<char>,
    width_name: Seq<char>,
    height_name: Seq<char>,
)
    requires
        name != width_name,
        name != height_name,
        width_name != height_name,
    ensures
        ({
            let after = publish_all(globals, panel.writes(name, width_name, height_name));
            &&& after.contains_key(name) && after[name] == ValueView::Text(panel@)
            &&& after.contains_key(width_name) && after[width_name] == ValueView::Integer(
                visual_width(panel@) as int,
            )
            &&& after.contains_key(height_name) && after[height_name] == ValueView::Integer(
                visual_height(panel@) as int,
            )
            &&& forall|other: Seq<char>|
                other != name && other != width_name && other != height_name ==> (
                after.contains_key(other) <==> globals.contains_key(other)) && after[other]
                    == globals[other]
        }),
{
    let writes = panel.writes(name, width_name, height_name);
    assert(writes.drop_last().drop_last().drop_last() =~= Seq::<Write>::empty());
    assert(publish_all(globals, Seq::<Write>::empty()) == globals);
    assert(publish_all(globals, writes.drop_last().drop_last()) == globals.insert(
        writes[0].0,
        writes[0].1,
    ));
    assert(publish_all(globals, writes.drop_last()) == globals.insert(
        writes[0].0,
        writes[0].1,
    ).insert(writes[1].0, writes[1].1));
}

} // verus!
