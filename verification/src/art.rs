//! The art that stands beside the info panel.

use crate::context::{ScriptContext, Write};
use crate::errors::FetchError;
use crate::inject::Inject;
use crate::panel::Panel;
use vstd::prelude::*;

verus! {

/// The art block: a text, mostly a logo drawn in characters, and its visual
/// dimensions.
#[derive(Debug)]
pub struct Art {
    panel: Panel,
}

impl View for Art {
    type V = Seq<char>;

    /// The text of the art.
    closed spec fn view(&self) -> Seq<char> {
        self.panel@
    }
}

impl Art {
    /// The panel that holds the text of the art.
    pub closed spec fn panel(&self) -> Panel {
        self.panel
    }

    /// The art block of `text`.
    pub fn new(text: String) -> (art: Art)
        ensures
            art@ == text@,
    {
        Art { panel: Panel::new(text) }
    }

    /// The text of the art.
    pub fn text(&self) -> (text: &str)
        ensures
            text@ == self@,
    {
        self.panel.text()
    }

    /// The visual width of the art.
    pub fn width(&self) -> (width: usize)
        ensures
            width == crate::metrics::visual_width(self@),
    {
        self.panel.width()
    }

    /// The visual height of the art.
    pub fn height(&self) -> (height: usize)
        ensures
            height == crate::metrics::visual_height(self@),
    {
        self.panel.height()
    }
}

impl Inject for Art {
    open spec fn prepared(&self) -> bool {
        true
    }

    /// Three writes: the text under `art`, its visual width under
    /// `artWidth`, its visual height under `artHeight`.
    open spec fn writes(&self) -> Seq<Write> {
        self.panel().writes("art"@, "artWidth"@, "artHeight"@)
    }

    /// Nothing to prepare: the art is measured when it is made.
    fn prep(&mut self) -> (r: Result<(), FetchError>)
        ensures
            r is Ok,
            *final(self) == *old(self),
    {
        Ok(())
    }

    fn inject(&self, ctx: &mut ScriptContext) {
        self.panel.inject(ctx, "art", "artWidth", "artHeight");
    }
}

} // verus!
