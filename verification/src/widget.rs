//! The field model: one tagged union per form row.

use vstd::prelude::*;
use crate::popup::FilterSelectPopup;

verus! {

/// One row of a form: either an interactive field (text input, read-only
/// display box, boolean toggle, select box, button) or a non-interactive
/// line (heading, static text, status/error text).
#[derive(Clone, Debug)]
pub enum FormWidget {
    /// Non-interactive section label.
    Heading(&'static str),
    /// Non-interactive informational line.
    StaticText(&'static str),
    /// Editable text, with an optional placeholder and unit annotation.
    InputBox {
        label: &'static str,
        text: String,
        empty_text: Option<&'static str>,
        currency: Option<String>,
    },
    /// A toggle.
    BooleanInput { label: &'static str, value: bool },
    /// Read-only text presented like an input.
    DisplayBox { label: &'static str, text: String, empty_text: Option<&'static str> },
    /// Editable text bound to a filter-select popup; `text` is the committed
    /// selection.
    SelectInput {
        label: &'static str,
        text: String,
        empty_text: Option<&'static str>,
        popup: FilterSelectPopup,
    },
    /// Triggers a caller-supplied callback on activation.
    Button { label: &'static str },
    /// Free-form status line, invisible while empty.
    DisplayText(String),
    /// Free-form error line, invisible while empty.
    ErrorText(String),
}

impl FormWidget {
    /// The focus cursor may rest on this field.
    pub open spec fn is_interactive(self) -> bool {
        match self {
            FormWidget::InputBox { .. } => true,
            FormWidget::DisplayBox { .. } => true,
            FormWidget::BooleanInput { .. } => true,
            FormWidget::SelectInput { .. } => true,
            FormWidget::Button { .. } => true,
            _ => false,
        }
    }

    /// The field carries a text value.
    pub open spec fn has_text(self) -> bool {
        match self {
            FormWidget::InputBox { .. } => true,
            FormWidget::DisplayBox { .. } => true,
            FormWidget::SelectInput { .. } => true,
            FormWidget::DisplayText(_) => true,
            FormWidget::ErrorText(_) => true,
            _ => false,
        }
    }

    /// The text value of a text-carrying field.
    pub open spec fn text_value(self) -> String
        recommends
            self.has_text(),
    {
        match self {
            FormWidget::InputBox { text, .. } => text,
            FormWidget::DisplayBox { text, .. } => text,
            FormWidget::SelectInput { text, .. } => text,
            FormWidget::DisplayText(text) => text,
            FormWidget::ErrorText(text) => text,
            _ => arbitrary(),
        }
    }

    /// The characters of the field's text; empty for fields without one.
    pub open spec fn text_view(self) -> Seq<char> {
        if self.has_text() {
            self.text_value()@
        } else {
            Seq::<char>::empty()
        }
    }

    /// The same field with its text replaced; fields without a text are
    /// returned unchanged.
    pub open spec fn with_text(self, t: String) -> FormWidget {
        match self {
            FormWidget::InputBox { label, text, empty_text, currency } => FormWidget::InputBox {
                label,
                text: t,
                empty_text,
                currency,
            },
            FormWidget::DisplayBox { label, text, empty_text } => FormWidget::DisplayBox {
                label,
                text: t,
                empty_text,
            },
            FormWidget::SelectInput { label, text, empty_text, popup } => FormWidget::SelectInput {
                label,
                text: t,
                empty_text,
                popup,
            },
            FormWidget::DisplayText(_) => FormWidget::DisplayText(t),
            FormWidget::ErrorText(_) => FormWidget::ErrorText(t),
            _ => self,
        }
    }

    /// The value of a boolean toggle.
    pub open spec fn bool_value(self) -> bool
        recommends
            self is BooleanInput,
    {
        match self {
            FormWidget::BooleanInput { value, .. } => value,
            _ => arbitrary(),
        }
    }

    /// The same toggle with its value replaced; other fields unchanged.
    pub open spec fn with_bool(self, v: bool) -> FormWidget {
        match self {
            FormWidget::BooleanInput { label, value } => FormWidget::BooleanInput {
                label,
                value: v,
            },
            _ => self,
        }
    }

    /// The popup of a select field.
    pub open spec fn popup_value(self) -> FilterSelectPopup
        recommends
            self is SelectInput,
    {
        match self {
            FormWidget::SelectInput { popup, .. } => popup,
            _ => arbitrary(),
        }
    }

    /// The same select field with its popup replaced; other fields unchanged.
    pub open spec fn with_popup(self, p: FilterSelectPopup) -> FormWidget {
        match self {
            FormWidget::SelectInput { label, text, empty_text, popup } => FormWidget::SelectInput {
                label,
                text,
                empty_text,
                popup: p,
            },
            _ => self,
        }
    }

    /// The currency annotation of a text input.
    pub open spec fn currency_value(self) -> Option<String>
        recommends
            self is InputBox,
    {
        match self {
            FormWidget::InputBox { currency, .. } => currency,
            _ => arbitrary(),
        }
    }

    /// The same input with its currency annotation replaced.
    pub open spec fn with_currency(self, c: Option<String>) -> FormWidget {
        match self {
            FormWidget::InputBox { label, text, empty_text, currency } => FormWidget::InputBox {
                label,
                text,
                empty_text,
                currency: c,
            },
            _ => self,
        }
    }

    /// Executable classifier for [`FormWidget::is_interactive`].
    pub fn interactive(&self) -> (r: bool)
        ensures
            r == self.is_interactive(),
    {
        match self {
            FormWidget::InputBox { .. } => true,
            FormWidget::DisplayBox { .. } => true,
            FormWidget::BooleanInput { .. } => true,
            FormWidget::SelectInput { .. } => true,
            FormWidget::Button { .. } => true,
            _ => false,
        }
    }

    pub open spec fn spec_label(self) -> Option<&'static str> {
        match self {
            FormWidget::InputBox { label, .. } => Some(label),
            FormWidget::DisplayBox { label, .. } => Some(label),
            FormWidget::BooleanInput { label, .. } => Some(label),
            FormWidget::Button { label } => Some(label),
            FormWidget::SelectInput { label, .. } => Some(label),
            _ => None,
        }
    }

    /// The label of an interactive field; headings and status lines have
    /// none.
    pub fn label(&self) -> (r: Option<&'static str>)
        ensures
            r == self.spec_label(),
    {
        match self {
            FormWidget::InputBox { label, .. } => Some(*label),
            FormWidget::DisplayBox { label, .. } => Some(*label),
            FormWidget::BooleanInput { label, .. } => Some(*label),
            FormWidget::Button { label } => Some(*label),
            FormWidget::SelectInput { label, .. } => Some(*label),
            _ => None,
        }
    }

    /// The largest intra-field edit-cursor position: the character count of
    /// the field's text, the length of a toggle's textual value (`true` or
    /// `false`), and 0 for everything else.
    pub open spec fn spec_max_cursor(self) -> int {
        match self {
            FormWidget::InputBox { text, .. } => text@.len() as int,
            FormWidget::DisplayBox { text, .. } => text@.len() as int,
            FormWidget::SelectInput { text, .. } => text@.len() as int,
            FormWidget::BooleanInput { value, .. } => if value {
                4int
            } else {
                5int
            },
            _ => 0,
        }
    }

    pub fn max_cursor(&self) -> (r: usize)
        ensures
            r == self.spec_max_cursor(),
    {
        match self {
            FormWidget::InputBox { text, .. } => text.as_str().unicode_len(),
            FormWidget::DisplayBox { text, .. } => text.as_str().unicode_len(),
            FormWidget::SelectInput { text, .. } => text.as_str().unicode_len(),
            FormWidget::BooleanInput { value, .. } => if *value {
                4
            } else {
                5
            },
            _ => 0,
        }
    }
}

} // verus!
