//! The orchestrator: the art, the terminal and the info block, prepared and
//! published in the one order that lets the outer template see them all.

use crate::art::Art;
use crate::context::{lemma_publish_concat, publish_all, ScriptContext, Write};
use crate::errors::FetchError;
use crate::info::Info;
use crate::inject::Inject;
use crate::misc::Terminal;
use crate::interpreter::Interpreter;
use crate::render::{outcome, passed, render_in, Template};
use vstd::prelude::*;

verus! {

/// The three blocks of the output.
pub struct Layout {
    pub art: Art,
    pub info: Info,
    pub terminal: Terminal,
}

impl Layout {
    /// The layout of the three blocks.
    pub fn new(art: Art, info: Info, terminal: Terminal) -> (layout: Layout)
        ensures
            layout.art == art,
            layout.info == info,
            layout.terminal == terminal,
    {
        Layout { art, info, terminal }
    }

    /// One whole pass with the two interpreters that it takes: `inner` for
    /// the info panel, `outer` for the whole output.
    ///
    /// The blocks are prepared first, the info block with `inner`: its facts
    /// are published to its own context in any case, and `inner` is asked
    /// one pass over that context and the template of the panel. Where that
    /// fails, the failure is the result, nothing is published to `ctx`, and
    /// `outer` is asked nothing. Where it succeeds, the panel holds the text
    /// that `inner` gave, the blocks are published to `ctx`, and only then
    /// is `outer` asked one pass over `ctx`, as it then is, and `template`.
    /// The result is the outcome of that pass.
    pub fn run_in(
        &mut self,
        ctx: &mut ScriptContext,
        template: &Template,
        inner: &mut Interpreter,
        outer: &mut Interpreter,
    ) -> (r: Result<String, FetchError>)
        ensures
            final(self).info.ctx.globals() == publish_all(
                old(self).info.ctx.globals(),
                old(self).info.fact_writes(),
            ),
            final(self).info.ctx.preludes() == old(self).info.ctx.preludes(),
            final(self).info.template == old(self).info.template,
            final(self).info.uptime == old(self).info.uptime,
            final(self).info.shell == old(self).info.shell,
            final(self).info.memory == old(self).info.memory,
            final(self).info.others == old(self).info.others,
            final(self).art == old(self).art,
            final(self).terminal == old(self).terminal,
            final(ctx).preludes() == old(ctx).preludes(),
            ({
                let stopped = {
                    &&& r matches Err(e)
                    &&& passed(
                        *old(inner),
                        *final(inner),
                        &final(self).info.ctx,
                        &old(self).info.template,
                        Err(e@),
                    )
                    &&& final(self).info.panel == old(self).info.panel
                    &&& final(ctx).globals() == old(ctx).globals()
                    &&& final(outer).requests() == old(outer).requests()
                    &&& final(outer).given() == old(outer).given()
                };
                let went_on = {
                    &&& final(self).info.panel matches Some(panel)
                    &&& passed(
                        *old(inner),
                        *final(inner),
                        &final(self).info.ctx,
                        &old(self).info.template,
                        Ok(panel@),
                    )
                    &&& final(ctx).globals() == publish_all(
                        old(ctx).globals(),
                        final(self).writes(),
                    )
                    &&& passed(*old(outer), *final(outer), &*final(ctx), template, outcome(r))
                };
                stopped || went_on
            }),
            !final(self).prepared() ==> r is Err && final(ctx).globals() == old(ctx).globals()
                && final(outer).requests() == old(outer).requests(),
            r is Ok || (!old(self).prepared() && final(self).prepared()) ==> final(ctx).globals()
                == publish_all(old(ctx).globals(), final(self).writes()) && passed(
                *old(outer),
                *final(outer),
                &*final(ctx),
                template,
                outcome(r),
            ),
    {
        match self.info.prep_in(inner) {
            Ok(_) => {},
            Err(e) => {
                return Err(e);
            },
        }
        match self.art.prep() {
            Ok(_) => {},
            Err(e) => {
                return Err(e);
            },
        }
        match self.terminal.prep() {
            Ok(_) => {},
            Err(e) => {
                return Err(e);
            },
        }
        self.inject(ctx);
        render_in(outer, ctx, template)
    }

    /// One whole pass: prepares the blocks, publishes them to `ctx`, and
    /// renders `template` there, with two fresh interpreters that are asked
    /// what `run_in` says. Every step is taken, in this order, and the first
    /// that fails ends the pass. Where preparing fails, nothing is published
    /// and `ctx` is as it was.
    pub fn run(&mut self, ctx: &mut ScriptContext, template: &Template) -> (r: Result<
        String,
        FetchError,
    >)
        ensures
            r is Ok ==> final(self).prepared(),
            r is Ok ==> final(ctx).globals() == publish_all(
                old(ctx).globals(),
                final(self).writes(),
            ),
            r is Err ==> final(ctx).globals() == old(ctx).globals() || (final(self).prepared()
                && final(ctx).globals() == publish_all(old(ctx).globals(), final(self).writes())),
            !final(self).prepared() ==> r is Err && final(ctx).globals() == old(ctx).globals(),
            final(self).info.ctx.globals() == publish_all(
                old(self).info.ctx.globals(),
                old(self).info.fact_writes(),
            ),
            final(ctx).preludes() == old(ctx).preludes(),
            final(self).art == old(self).art,
            final(self).terminal == old(self).terminal,
            old(self).info.template.resolved() matches Err(failure) ==> (r matches Err(e) && e@
                == failure),
            r matches Err(e) ==> e is Read || e is Script || e is OutputMissing,
    {
        let mut inner = Interpreter::new();
        let mut outer = Interpreter::new();
        self.run_in(ctx, template, &mut inner, &mut outer)
    }
}

impl Inject for Layout {
    /// The layout is prepared once its info block is. The art and the
    /// terminal have nothing to prepare.
    open spec fn prepared(&self) -> bool {
        self.info.prepared()
    }

    /// The writes of the art, then those of the terminal, then those of the
    /// info block. The info block comes last.
    open spec fn writes(&self) -> Seq<Write> {
        self.art.writes() + self.terminal.writes() + self.info.writes()
    }

    /// Prepares the info block, then the art, then the terminal.
    fn prep(&mut self) -> (r: Result<(), FetchError>)
        ensures
            r is Err ==> final(self).info.panel == old(self).info.panel,
            old(self).info.template.resolved() matches Err(failure) ==> (r matches Err(e) && e@
                == failure),
            r matches Err(e) ==> e is Read || e is Script || e is OutputMissing,
            final(self).art == old(self).art,
            final(self).terminal == old(self).terminal,
            final(self).info.template == old(self).info.template,
            final(self).info.ctx.globals() == publish_all(
                old(self).info.ctx.globals(),
                old(self).info.fact_writes(),
            ),
    {
        match self.info.prep() {
            Ok(_) => {},
            Err(e) => {
                return Err(e);
            },
        }
        match self.art.prep() {
            Ok(_) => {},
            Err(e) => {
                return Err(e);
            },
        }
        self.terminal.prep()
    }

    fn inject(&self, ctx: &mut ScriptContext) {
        let ghost start = ctx.globals();
        self.art.inject(ctx);
        self.terminal.inject(ctx);
        self.info.inject(ctx);
        proof {
            lemma_publish_concat(start, self.art.writes(), self.terminal.writes());
            lemma_publish_concat(
                start,
                self.art.writes() + self.terminal.writes(),
                self.info.writes(),
            );
        }
    }
}

} // verus!
