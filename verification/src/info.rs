//! The facts about the machine and the info panel rendered from them.

pub mod memory;
pub mod record;
pub mod shell;
pub mod uptime;

use crate::context::{
    lemma_publish_concat, publish_all, ScriptContext, ValueView, Write,
};
use crate::errors::FetchError;
use crate::inject::Inject;
use crate::metrics::{visual_height, visual_width};
use crate::panel::{lemma_published_together, Panel};
use crate::interpreter::Interpreter;
use crate::errors::FetchErrorView;
use crate::render::{passed, render_in, Template};
use memory::Memory;
use record::Record;
use shell::Shell;
use uptime::Uptime;
use vstd::prelude::*;

verus! {

/// The info block: the facts about the machine, the template that lays them
/// out, and, once it is prepared, the panel rendered from them.
///
/// The block has a scripting context of its own. Preparing the block
/// publishes the facts there and renders the template in it. Publishing the
/// block hands the rendered panel on to another context.
pub struct Info {
    /// The block's own scripting context.
    pub ctx: ScriptContext,
    /// The template of the panel.
    pub template: Template,
    /// The rendered panel, once there is one.
    pub panel: Option<Panel>,
    pub uptime: Uptime,
    pub shell: Shell,
    pub memory: Memory,
    /// The facts that are plain records, in the order of their publishing.
    pub others: Vec<Record>,
}

/// The writes that publish `records`, one after the other.
pub open spec fn record_writes(records: Seq<Record>) -> Seq<Write>
    decreases records.len(),
{
    if records.len() == 0 {
        Seq::empty()
    } else {
        record_writes(records.drop_last()) + records.last().writes()
    }
}

impl Info {
    /// The writes that publish the facts to the block's own context: the
    /// uptime, the shell, the memory, and then the other records in their
    /// order.
    pub open spec fn fact_writes(&self) -> Seq<Write> {
        self.uptime.writes() + self.shell.writes() + self.memory.writes() + record_writes(
            self.others@,
        )
    }

    /// How a rendering that ended in `r` reads as the outcome of a pass: on
    /// success the text is the one that the block now holds, on failure the
    /// failure is that of `r`.
    pub open spec fn rendering(&self, r: Result<(), FetchError>) -> Result<
        Seq<char>,
        FetchErrorView,
    > {
        match r {
            Ok(_) => match self.panel {
                Some(panel) => Ok(panel@),
                None => Ok(Seq::empty()),
            },
            Err(e) => Err(e@),
        }
    }

    /// The info block of the given facts. Its context starts out with
    /// `preludes` and without globals, and nothing is rendered yet.
    pub fn new(
        preludes: Vec<String>,
        template: Template,
        uptime: Uptime,
        shell: Shell,
        memory: Memory,
        others: Vec<Record>,
    ) -> (info: Info)
        ensures
            !info.prepared(),
            info.panel is None,
            info.template == template,
            info.ctx.preludes() == preludes@,
            info.ctx.globals() == Map::<Seq<char>, ValueView>::empty(),
            info.uptime == uptime,
            info.shell == shell,
            info.memory == memory,
            info.others == others,
    {
        Info {
            ctx: ScriptContext::with_preludes(preludes),
            template,
            panel: None,
            uptime,
            shell,
            memory,
            others,
        }
    }

    /// Renders the template in the block's own context, as it stands, with
    /// `interpreter`, and keeps the text together with its dimensions. The
    /// interpreter is asked what a pass over that context and the resolved
    /// template asks: to run the preludes, to bind every global of the
    /// block's context, to run the source, and to give the output. On
    /// success the text kept is the one that the interpreter gave. Where
    /// rendering fails the block keeps what it had.
    pub fn render_in(&mut self, interpreter: &mut Interpreter) -> (r: Result<(), FetchError>)
        ensures
            r is Ok ==> final(self).panel is Some,
            r is Err ==> final(self).panel == old(self).panel,
            passed(
                *old(interpreter),
                *final(interpreter),
                &old(self).ctx,
                &old(self).template,
                final(self).rendering(r),
            ),
            final(self).ctx == old(self).ctx,
            final(self).template == old(self).template,
            final(self).uptime == old(self).uptime,
            final(self).shell == old(self).shell,
            final(self).memory == old(self).memory,
            final(self).others == old(self).others,
    {
        match render_in(interpreter, &self.ctx, &self.template) {
            Ok(text) => {
                self.panel = Some(Panel::new(text));
                Ok(())
            },
            Err(e) => Err(e),
        }
    }

    /// Renders the template in the block's own context, as it stands, with
    /// a fresh interpreter, and keeps the text together with its dimensions.
    /// Where rendering fails the block keeps what it had.
    pub fn render(&mut self) -> (r: Result<(), FetchError>)
        ensures
            r is Ok ==> final(self).panel is Some,
            r is Err ==> final(self).panel == old(self).panel,
            old(self).template.resolved() matches Err(failure) ==> (r matches Err(e) && e@
                == failure),
            old(self).template.resolved() is Ok ==> (r matches Err(e) ==> e is Script
                || e is OutputMissing),
            final(self).ctx == old(self).ctx,
            final(self).template == old(self).template,
            final(self).uptime == old(self).uptime,
            final(self).shell == old(self).shell,
            final(self).memory == old(self).memory,
            final(self).others == old(self).others,
    {
        let mut interpreter = Interpreter::new();
        self.render_in(&mut interpreter)
    }

    /// Publishes the facts to the block's own context, then renders the
    /// template there with `interpreter`. The facts are published whether or
    /// not the rendering succeeds, and they are published before the
    /// interpreter is asked anything: what it is asked to bind are the
    /// globals of the context with the facts in it.
    pub fn prep_in(&mut self, interpreter: &mut Interpreter) -> (r: Result<(), FetchError>)
        ensures
            final(self).ctx.globals() == publish_all(
                old(self).ctx.globals(),
                old(self).fact_writes(),
            ),
            final(self).ctx.preludes() == old(self).ctx.preludes(),
            r is Ok ==> final(self).panel is Some,
            r is Err ==> final(self).panel == old(self).panel,
            passed(
                *old(interpreter),
                *final(interpreter),
                &final(self).ctx,
                &old(self).template,
                final(self).rendering(r),
            ),
            final(self).template == old(self).template,
            final(self).uptime == old(self).uptime,
            final(self).shell == old(self).shell,
            final(self).memory == old(self).memory,
            final(self).others == old(self).others,
    {
        let ghost start = self.ctx.globals();
        let ghost typed = self.uptime.writes() + self.shell.writes() + self.memory.writes();
        self.uptime.inject(&mut self.ctx);
        self.shell.inject(&mut self.ctx);
        self.memory.inject(&mut self.ctx);
        proof {
            lemma_publish_concat(start, self.uptime.writes(), self.shell.writes());
            lemma_publish_concat(
                start,
                self.uptime.writes() + self.shell.writes(),
                self.memory.writes(),
            );
            assert(typed + record_writes(self.others@.take(0)) =~= typed);
        }
        let n = self.others.len();
        let mut i: usize = 0;
        while i < n
            invariant
                n == self.others.len(),
                i <= n,
                self.ctx.globals() == publish_all(
                    start,
                    typed + record_writes(self.others@.take(i as int)),
                ),
                self.ctx.preludes() == old(self).ctx.preludes(),
                self.template == old(self).template,
                self.panel == old(self).panel,
                self.uptime == old(self).uptime,
                self.shell == old(self).shell,
                self.memory == old(self).memory,
                self.others == old(self).others,
            decreases n - i,
        {
            proof {
                let done = self.others@.take(i as int);
                let now = self.others@.take(i + 1);
                assert(now.drop_last() =~= done);
                assert(now.last() == self.others@[i as int]);
                lemma_publish_concat(start, typed + record_writes(done), now.last().writes());
                assert(typed + record_writes(now) =~= (typed + record_writes(done))
                    + now.last().writes());
            }
            self.others[i].inject(&mut self.ctx);
            i = i + 1;
        }
        proof {
            assert(self.others@.take(n as int) =~= self.others@);
        }
        self.render_in(interpreter)
    }

    /// The rendered text, once the block is prepared.
    pub fn rendered(&self) -> (text: Option<&str>)
        ensures
            match text {
                Some(t) => self.panel matches Some(p) && t@ == p@,
                None => self.panel is None,
            },
    {
        match &self.panel {
            Some(panel) => Some(panel.text()),
            None => None,
        }
    }

    /// The visual width of the rendered text, once the block is prepared.
    pub fn width(&self) -> (width: Option<usize>)
        ensures
            match width {
                Some(w) => self.panel matches Some(p) && w == visual_width(p@),
                None => self.panel is None,
            },
    {
        match &self.panel {
            Some(panel) => Some(panel.width()),
            None => None,
        }
    }

    /// The visual height of the rendered text, once the block is prepared.
    pub fn height(&self) -> (height: Option<usize>)
        ensures
            match height {
                Some(h) => self.panel matches Some(p) && h == visual_height(p@),
                None => self.panel is None,
            },
    {
        match &self.panel {
            Some(panel) => Some(panel.height()),
            None => None,
        }
    }
}

impl Inject for Info {
    /// The block is prepared once it holds a rendered panel.
    open spec fn prepared(&self) -> bool {
        self.panel is Some
    }

    /// Three writes: the rendered text under `info`, its visual width under
    /// `infoWidth`, its visual height under `infoHeight`.
    open spec fn writes(&self) -> Seq<Write> {
        match self.panel {
            Some(panel) => panel.writes("info"@, "infoWidth"@, "infoHeight"@),
            None => Seq::empty(),
        }
    }

    /// Publishes the facts to the block's own context, then renders the
    /// template there. The facts are published whether or not the rendering
    /// succeeds.
    fn prep(&mut self) -> (r: Result<(), FetchError>)
        ensures
            final(self).ctx.globals() == publish_all(
                old(self).ctx.globals(),
                old(self).fact_writes(),
            ),
            final(self).ctx.preludes() == old(self).ctx.preludes(),
            r is Err ==> final(self).panel == old(self).panel,
            old(self).template.resolved() matches Err(failure) ==> (r matches Err(e) && e@
                == failure),
            old(self).template.resolved() is Ok ==> (r matches Err(e) ==> e is Script
                || e is OutputMissing),
            final(self).template == old(self).template,
            final(self).uptime == old(self).uptime,
            final(self).shell == old(self).shell,
            final(self).memory == old(self).memory,
            final(self).others == old(self).others,
    {
        let mut interpreter = Interpreter::new();
        self.prep_in(&mut interpreter)
    }

    fn inject(&self, ctx: &mut ScriptContext) {
        match &self.panel {
            Some(panel) => panel.inject(ctx, "info", "infoWidth", "infoHeight"),
            None => {},
        }
    }
}

/// Publishing a prepared info block binds `infoWidth` and `infoHeight` to
/// the visual dimensions of the very text that it binds `info` to: the three
/// are never of different renderings.
pub proof fn lemma_info_published_together(info: Info, globals: Map<Seq<char>, ValueView>)
    requires
        info.prepared(),
    ensures
        ({
            let after = publish_all(globals, info.writes());
            let text = info.panel->0@;
            &&& after.contains_key("info"@) && after["info"@] == ValueView::Text(text)
            &&& after.contains_key("infoWidth"@) && after["infoWidth"@] == ValueView::Integer(
                visual_width(text) as int,
            )
            &&& after.contains_key("infoHeight"@) && after["infoHeight"@] == ValueView::Integer(
                visual_height(text) as int,
            )
        }),
{
    reveal_strlit("info");
    reveal_strlit("infoWidth");
    reveal_strlit("infoHeight");
    assert("info"@.len() == 4 && "infoWidth"@.len() == 9 && "infoHeight"@.len() == 10);
    lemma_published_together(info.panel->0, globals, "info"@, "infoWidth"@, "infoHeight"@);
}

} // verus!
