//! The layout contract of form rendering: fields are laid out top to
//! bottom, each consuming a kind-dependent height, with hidden fields
//! skipped. Drawing itself (cells, borders, styling) happens outside the
//! library, against the rows this module computes.

use vstd::prelude::*;
use crate::form::Form;
use crate::widget::FormWidget;

verus! {

/// The number of wrapped lines a text of `len` characters needs at `w`
/// columns; an empty text still occupies one line.
pub open spec fn wrap_lines(len: int, w: int) -> int {
    if len <= 0 {
        1
    } else {
        1 + (len - 1) / w
    }
}

impl Form {
    /// The character count a boxed field renders: input and display boxes
    /// and toggles are blanked while `everything_empty` is set, a toggle
    /// shows `true` or `false`, a select field always shows its committed
    /// text.
    pub open spec fn rendered_text_len(self, i: int) -> int {
        match self.items@[i] {
            FormWidget::InputBox { text, .. } => if self.everything_empty {
                0
            } else {
                text@.len() as int
            },
            FormWidget::DisplayBox { text, .. } => if self.everything_empty {
                0
            } else {
                text@.len() as int
            },
            FormWidget::BooleanInput { value, .. } => if self.everything_empty {
                0
            } else if value {
                4
            } else {
                5
            },
            FormWidget::SelectInput { text, .. } => text@.len() as int,
            _ => 0,
        }
    }

    /// The rows the field at `i` occupies at the given width: two for a
    /// heading or static line, four for a button, a bordered box of two
    /// rows plus the wrapped text for the input-like fields, and, for a
    /// status line, nothing while empty and a blank row, the wrapped text
    /// and a trailing row otherwise.
    pub open spec fn spec_field_height(self, i: int, width: int) -> int {
        let inner = if width > 2 {
            width - 2
        } else {
            1
        };
        match self.items@[i] {
            FormWidget::Heading(_) => 2,
            FormWidget::StaticText(_) => 2,
            FormWidget::Button { .. } => 4,
            FormWidget::DisplayText(t) => if t@.len() == 0 {
                0
            } else {
                2 + wrap_lines(t@.len() as int, width)
            },
            FormWidget::ErrorText(t) => if t@.len() == 0 {
                0
            } else {
                2 + wrap_lines(t@.len() as int, width)
            },
            _ => 2 + wrap_lines(self.rendered_text_len(i), inner),
        }
    }

    /// The total height of the visible fields below index `n`.
    pub open spec fn heights_sum(self, width: int, n: int) -> int
        decreases n,
    {
        if n <= 0 {
            0
        } else {
            self.heights_sum(width, n - 1) + if self.hide@.contains_key((n - 1) as usize) {
                0
            } else {
                self.spec_field_height(n - 1, width)
            }
        }
    }

    /// The rows of the rendered form: one `(index, y, height)` triple per
    /// visible field, in field order, each starting where the previous one
    /// ended.
    pub open spec fn layout_rows(self, width: int, n: int) -> Seq<(int, int, int)>
        decreases n,
    {
        if n <= 0 {
            Seq::empty()
        } else {
            let rest = self.layout_rows(width, n - 1);
            if self.hide@.contains_key((n - 1) as usize) {
                rest
            } else {
                rest.push(
                    (n - 1, self.heights_sum(width, n - 1), self.spec_field_height(n - 1, width)),
                )
            }
        }
    }

    /// Field heights are never negative.
    pub proof fn lemma_field_height_nonneg(self, i: int, width: int)
        requires
            width >= 1,
        ensures
            self.spec_field_height(i, width) >= 0,
    {
    }

    /// Partial height sums grow with the prefix.
    pub proof fn lemma_heights_sum_mono(self, width: int, a: int, b: int)
        requires
            width >= 1,
            a <= b,
        ensures
            self.heights_sum(width, a) <= self.heights_sum(width, b),
        decreases b - a,
    {
        if a < b {
            self.lemma_heights_sum_mono(width, a, b - 1);
            self.lemma_field_height_nonneg(b - 1, width);
        }
    }

    /// The height of the field at `i` at the given width; the caller
    /// guarantees it fits the row type.
    fn field_height(&self, i: usize, width: u16) -> (h: u16)
        requires
            (i as int) < self.items@.len(),
            width >= 1,
            self.spec_field_height(i as int, width as int) <= u16::MAX,
        ensures
            h as int == self.spec_field_height(i as int, width as int),
    {
        let inner: usize = if width > 2 {
            (width - 2) as usize
        } else {
            1
        };
        match &self.items[i] {
            FormWidget::Heading(_) => 2,
            FormWidget::StaticText(_) => 2,
            FormWidget::Button { .. } => 4,
            FormWidget::DisplayText(t) => {
                let len = t.as_str().unicode_len();
                if len == 0 {
                    0
                } else {
                    (2 + (1 + (len - 1) / (width as usize))) as u16
                }
            },
            FormWidget::ErrorText(t) => {
                let len = t.as_str().unicode_len();
                if len == 0 {
                    0
                } else {
                    (2 + (1 + (len - 1) / (width as usize))) as u16
                }
            },
            FormWidget::InputBox { text, .. } => {
                let len = if self.everything_empty {
                    0
                } else {
                    text.as_str().unicode_len()
                };
                Self::box_height(len, inner)
            },
            FormWidget::DisplayBox { text, .. } => {
                let len = if self.everything_empty {
                    0
                } else {
                    text.as_str().unicode_len()
                };
                Self::box_height(len, inner)
            },
            FormWidget::BooleanInput { value, .. } => {
                let len: usize = if self.everything_empty {
                    0
                } else if *value {
                    4
                } else {
                    5
                };
                Self::box_height(len, inner)
            },
            FormWidget::SelectInput { text, .. } => {
                let len = text.as_str().unicode_len();
                Self::box_height(len, inner)
            },
        }
    }

    /// The bordered-box height for a text of `len` characters at `inner`
    /// usable columns.
    fn box_height(len: usize, inner: usize) -> (h: u16)
        requires
            inner >= 1,
            2 + wrap_lines(len as int, inner as int) <= u16::MAX,
        ensures
            h as int == 2 + wrap_lines(len as int, inner as int),
    {
        if len == 0 {
            3
        } else {
            (2 + (1 + (len - 1) / inner)) as u16
        }
    }

    /// Computes the visible rows: for each non-hidden field, in order, its
    /// index, its vertical offset from the top of the form area and its
    /// height. The caller guarantees that the whole form fits the row type;
    /// rendering draws each row and any open popup last, above its
    /// siblings.
    pub fn layout(&self, width: u16) -> (rows: Vec<(usize, u16, u16)>)
        requires
            self.wf(),
            width >= 1,
            self.heights_sum(width as int, self.items@.len() as int) <= u16::MAX,
        ensures
            ({
                let lr = self.layout_rows(width as int, self.items@.len() as int);
                &&& rows@.len() == lr.len()
                &&& forall|k: int|
                    0 <= k < lr.len() ==> ((#[trigger] rows@[k]).0 as int == lr[k].0
                        && rows@[k].1 as int == lr[k].1 && rows@[k].2 as int == lr[k].2)
            }),
    {
        let n = self.items.len();
        let mut rows: Vec<(usize, u16, u16)> = Vec::new();
        let mut y: u16 = 0;
        let mut i: usize = 0;
        while i < n
            invariant
                self.wf(),
                n == self.items@.len(),
                width >= 1,
                self.heights_sum(width as int, n as int) <= u16::MAX,
                i <= n,
                y as int == self.heights_sum(width as int, i as int),
                ({
                    let lr = self.layout_rows(width as int, i as int);
                    &&& rows@.len() == lr.len()
                    &&& forall|k: int|
                        0 <= k < lr.len() ==> ((#[trigger] rows@[k]).0 as int == lr[k].0
                            && rows@[k].1 as int == lr[k].1 && rows@[k].2 as int == lr[k].2)
                }),
            decreases n - i,
        {
            proof {
                self.lemma_heights_sum_mono(width as int, i + 1, n as int);
                self.lemma_field_height_nonneg(i as int, width as int);
            }
            if !self.hide.contains_key(&i) {
                let h = self.field_height(i, width);
                rows.push((i, y, h));
                y = y + h;
            }
            i += 1;
        }
        rows
    }
}

} // verus!
