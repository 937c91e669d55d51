//! The composition protocol: every interactive widget consumes one event
//! and returns a [`HandleResult`] that its owner merges field-wise and
//! bubbles up to the page stack.

use vstd::prelude::*;
use crate::events::Event;

verus! {

/// The structured side-effect report a widget returns after consuming one
/// input event. `P` is the owning application's page type.
pub struct HandleResult<P> {
    /// How many pages the owning stack should pop.
    pub page_pops: usize,
    /// Pages to push onto the stack, in order.
    pub page_inserts: Vec<P>,
    /// Pending escape presses to suppress from default back-navigation,
    /// letting an inner widget consume escape first.
    pub esc_ignores: usize,
    /// The owning page should recompute its backing data.
    pub reload: bool,
}

impl<P> HandleResult<P> {
    /// The neutral report: no pops, no inserts, no suppressed escapes, no
    /// reload.
    pub fn new() -> (r: Self)
        ensures
            r.page_pops == 0,
            r.page_inserts@ == Seq::<P>::empty(),
            r.esc_ignores == 0,
            !r.reload,
    {
        HandleResult { page_pops: 0, page_inserts: Vec::new(), esc_ignores: 0, reload: false }
    }

    /// Field-wise merge, in delegation order: pops and escape suppressions
    /// sum, page inserts concatenate, reload is a logical or.
    pub fn merge(&mut self, other: HandleResult<P>)
        requires
            old(self).page_pops + other.page_pops <= usize::MAX,
            old(self).esc_ignores + other.esc_ignores <= usize::MAX,
        ensures
            final(self).page_pops == old(self).page_pops + other.page_pops,
            final(self).page_inserts@ == old(self).page_inserts@ + other.page_inserts@,
            final(self).esc_ignores == old(self).esc_ignores + other.esc_ignores,
            final(self).reload == (old(self).reload || other.reload),
    {
        let mut other = other;
        self.page_pops = self.page_pops + other.page_pops;
        self.page_inserts.append(&mut other.page_inserts);
        self.esc_ignores = self.esc_ignores + other.esc_ignores;
        self.reload = self.reload || other.reload;
    }
}

impl<P> Default for HandleResult<P> {
    /// Same as [`HandleResult::new`].
    fn default() -> (r: Self)
        ensures
            r.page_pops == 0,
            r.page_inserts@ == Seq::<P>::empty(),
            r.esc_ignores == 0,
            !r.reload,
    {
        HandleResult::new()
    }
}

/// The contract every interactive widget (form-bearing page, sidebar,
/// popup-bearing widget) implements: consume one event, report the
/// navigation and refresh side effects. Outside work a widget needs (I/O,
/// background jobs) is performed by its caller from what the report and the
/// widget's own result type describe.
pub trait Component {
    /// The owning application's page type.
    type Page;

    /// The error a widget's event handling may surface.
    type Err;

    /// Recompute the widget's backing data after an external state change.
    fn reload(&mut self) {
    }

    /// The widget's primary editable text, if it has one.
    fn text_input_mut(&mut self) -> Option<&mut String> {
        None
    }

    /// Consume one event and report the side effects.
    fn handle_event(&mut self, event: &Event) -> Result<
        HandleResult<Self::Page>,
        Self::Err,
    >;
}

} // verus!
