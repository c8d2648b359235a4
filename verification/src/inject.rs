//! What every component that publishes to the scripting context can do.

use crate::context::{publish_all, ScriptContext, Write};
use crate::errors::FetchError;
use vstd::prelude::*;

verus! {

/// A component that publishes values to the scripting context.
///
/// A component is first prepared and then published. Preparing does the
/// work that has to wait for other components and touches nothing but the
/// component itself. Publishing writes the component's globals, each under
/// its stable name, and changes nothing else. Publishing twice
/// writes the same globals twice, so the second time changes nothing.
pub trait Inject {
    /// Whether the component has been prepared and may be published.
    spec fn prepared(&self) -> bool;

    /// The writes that publishing makes, in order.
    spec fn writes(&self) -> Seq<Write>;

    /// Prepares the component. Where this succeeds the component may be
    /// published.
    fn prep(&mut self) -> (r: Result<(), FetchError>)
        ensures
            r is Ok ==> final(self).prepared(),
    ;

    /// Publishes the component to `ctx`.
    fn inject(&self, ctx: &mut ScriptContext)
        requires
            self.prepared(),
        ensures
            final(ctx).globals() == publish_all(old(ctx).globals(), self.writes()),
            final(ctx).preludes() == old(ctx).preludes(),
    ;
}

} // verus!
