//! A dismissable text overlay: shown whenever it holds any text, cleared by
//! escape, and suppressing default back-navigation while visible.

use vstd::prelude::*;
use crate::events::{Event, KeyCode};
use crate::traits::HandleResult;

verus! {

/// A popup that displays a text over the page until the user dismisses it
/// with escape. It is "shown" exactly while its text is non-empty.
pub struct TextPopup {
    /// Title line of the overlay.
    pub title: &'static str,
    /// The displayed text; empty means hidden.
    pub text: String,
}

impl TextPopup {
    /// The event is an escape key (of any press kind) that dismisses the
    /// popup.
    pub open spec fn dismisses(ev: Event) -> bool {
        match ev {
            Event::Input(k) => k.code == KeyCode::Esc,
            _ => false,
        }
    }

    /// A hidden popup with the given title.
    pub fn new(title: &'static str) -> (r: Self)
        ensures
            r.title == title,
            r.text@ == Seq::<char>::empty(),
    {
        TextPopup { title, text: String::new() }
    }

    /// The popup currently displays something.
    pub fn is_shown(&self) -> (r: bool)
        ensures
            r == (self.text@.len() != 0),
    {
        !self.text.as_str().is_empty()
    }

    /// Hides the popup.
    pub fn clear(&mut self)
        ensures
            final(self).title == old(self).title,
            final(self).text@ == Seq::<char>::empty(),
    {
        self.text = String::new();
    }

    /// Shows the given text.
    pub fn set_text(&mut self, text: String)
        ensures
            final(self).title == old(self).title,
            final(self).text == text,
    {
        self.text = text;
    }

    /// Consumes one event: escape clears the text. While the popup is still
    /// shown afterwards, one pending escape press is claimed so that the
    /// page stack does not navigate back past the open overlay.
    pub fn handle_event<P>(&mut self, event: &Event) -> (r: HandleResult<P>)
        ensures
            final(self).title == old(self).title,
            final(self).text@ == if Self::dismisses(*event) {
                Seq::<char>::empty()
            } else {
                old(self).text@
            },
            r.page_pops == 0,
            r.page_inserts@ == Seq::<P>::empty(),
            !r.reload,
            r.esc_ignores == if final(self).text@.len() != 0 {
                1int
            } else {
                0int
            },
    {
        let mut result: HandleResult<P> = HandleResult::new();
        match event {
            Event::Input(k) => {
                if matches!(k.code, KeyCode::Esc) {
                    self.clear();
                }
            },
            _ => {},
        }
        if self.is_shown() {
            result.esc_ignores = 1;
        }
        result
    }
}

} // verus!
