//! The form model: an ordered field list with a focus cursor, a visibility
//! map, an intra-field edit cursor and event routing.
//!
//! The field list is built once, from the screen's field-identifier
//! enumeration in its declared order, and is immutable in length and order
//! afterwards; only field contents and visibility change. The focus cursor
//! moves circularly over the indices that are interactive and not hidden.

use vstd::prelude::*;
use vstd::pervasive::unreached;
use vstd::set_lib::lemma_len_subset;
use vstd::arithmetic::div_mod::{lemma_small_mod, lemma_mod_sub_multiples_vanish};
use std::collections::HashMap;
use crate::widget::FormWidget;
use crate::events::{Event, KeyCode};
use crate::popup::FilterSelectPopup;
use crate::text_edit::{edit_step, handle_text_edit};

verus! {

broadcast use vstd::std_specs::hash::group_hash_axioms;

/// The contract a screen's field-identifier enumeration implements: each
/// identifier names exactly one position in the form's field list.
pub trait FormItemIndex: Sized {
    /// The position this identifier names.
    spec fn spec_index(&self) -> usize;

    /// Executable form of [`FormItemIndex::spec_index`].
    fn index(self) -> (r: usize)
        ensures
            r == self.spec_index(),
    ;
}

impl FormItemIndex for usize {
    open spec fn spec_index(&self) -> usize {
        *self
    }

    fn index(self) -> (r: usize) {
        self
    }
}

/// `x % n` for a sum that is less than `2 * n` is either `x` or `x - n`.
pub(crate) proof fn lemma_mod_small_sum(x: int, n: int)
    requires
        0 < n,
        0 <= x < 2 * n,
    ensures
        x % n == if x < n {
            x
        } else {
            x - n
        },
{
    if x < n {
        lemma_small_mod(x as nat, n as nat);
    } else {
        lemma_mod_sub_multiples_vanish(x, n);
        lemma_small_mod((x - n) as nat, n as nat);
    }
}

/// A form: the field list, the focus cursor, the intra-field edit cursor,
/// and the set of hidden indices.
pub struct Form {
    /// Index of the focused field.
    pub cursor: usize,
    /// Intra-field edit position, counted in characters.
    pub text_cursor: usize,
    /// Whether the form as a whole has keyboard focus (rendering hint).
    pub form_focus: bool,
    /// The fields, one per identifier value, in identifier order.
    pub items: Vec<FormWidget>,
    /// Indices currently hidden: skipped by navigation and rendering.
    pub hide: HashMap<usize, bool>,
    /// Rendering hint: draw every text field as if empty.
    pub everything_empty: bool,
}

impl Form {
    /// Well-formedness: the cursor indexes the field list (or rests at 0 in
    /// an empty form) and every hidden index is in range.
    pub open spec fn wf(self) -> bool {
        &&& self.items@.len() == 0 ==> self.cursor == 0
        &&& self.items@.len() > 0 ==> (self.cursor as int) < self.items@.len()
        &&& forall|k: usize| self.hide@.contains_key(k) ==> (k as int) < self.items@.len()
    }

    /// Index `i` is a legal focus target: in range, not hidden, interactive.
    pub open spec fn valid_at(self, i: int) -> bool {
        &&& 0 <= i < self.items@.len()
        &&& !self.hide@.contains_key(i as usize)
        &&& self.items@[i].is_interactive()
    }

    /// At least one legal focus target exists.
    pub open spec fn has_valid(self) -> bool {
        exists|i: int| self.valid_at(i)
    }

    /// The index reached from `c` after `j` forward steps, circularly.
    pub open spec fn step_fwd(self, c: int, j: int) -> int {
        (c + j) % (self.items@.len() as int)
    }

    /// The index reached from `c` after `j` backward steps, circularly.
    pub open spec fn step_back(self, c: int, j: int) -> int {
        (c + self.items@.len() - j) % (self.items@.len() as int)
    }

    /// `j` forward steps from `c1` land on `c2`, the first legal focus
    /// target on the way.
    pub open spec fn next_witness(self, c1: int, c2: int, j: int) -> bool {
        &&& 1 <= j <= self.items@.len()
        &&& c2 == self.step_fwd(c1, j)
        &&& self.valid_at(c2)
        &&& forall|k: int| 1 <= k < j ==> !self.valid_at(#[trigger] self.step_fwd(c1, k))
    }

    /// `c2` is the first legal focus target when scanning circularly
    /// forward from `c1` (excluding `c1` itself, except after a full turn).
    pub open spec fn is_next_valid(self, c1: int, c2: int) -> bool {
        exists|j: int| #[trigger] self.next_witness(c1, c2, j)
    }

    /// `j` backward steps from `c1` land on `c2`, the first legal focus
    /// target on the way.
    pub open spec fn prev_witness(self, c1: int, c2: int, j: int) -> bool {
        &&& 1 <= j <= self.items@.len()
        &&& c2 == self.step_back(c1, j)
        &&& self.valid_at(c2)
        &&& forall|k: int| 1 <= k < j ==> !self.valid_at(#[trigger] self.step_back(c1, k))
    }

    /// `c2` is the first legal focus target when scanning circularly
    /// backward from `c1`.
    pub open spec fn is_prev_valid(self, c1: int, c2: int) -> bool {
        exists|j: int| #[trigger] self.prev_witness(c1, c2, j)
    }

    /// The number of hidden indices never exceeds the field count.
    pub proof fn lemma_hidden_le(self)
        requires
            self.wf(),
        ensures
            self.hide@.len() <= self.items@.len(),
    {
        let n = self.items@.len() as int;
        vstd::std_specs::vec::axiom_spec_len(&self.items);
        lemma_usize_range(n);
        let rng = Set::<usize>::new(|k: usize| (k as int) < n);
        assert(self.hide@.dom().subset_of(rng));
        lemma_len_subset(self.hide@.dom(), rng);
    }

    /// Builds a form over the given fields (one per identifier value, in
    /// identifier order), with nothing hidden, focus on the first
    /// interactive field, and the edit cursor synchronized to it. In a
    /// degenerate form with no interactive field the cursor rests at 0.
    pub fn init(items: Vec<FormWidget>) -> (form: Form)
        ensures
            form.wf(),
            form.items == items,
            form.hide@ == Map::<usize, bool>::empty(),
            form.form_focus,
            !form.everything_empty,
            form.has_valid() ==> form.valid_at(form.cursor as int) && (forall|k: int|
                0 <= k < form.cursor ==> !form.valid_at(k)),
            !form.has_valid() ==> form.cursor == 0,
            form.text_cursor as int == if items@.len() > 0 {
                items@[form.cursor as int].spec_max_cursor()
            } else {
                0
            },
    {
        let mut form = Form {
            cursor: 0,
            text_cursor: 0,
            form_focus: true,
            items,
            hide: HashMap::new(),
            everything_empty: false,
        };
        let n = form.items.len();
        let mut i: usize = 0;
        while i < n
            invariant
                form.items == items,
                n == form.items@.len(),
                i <= n,
                form.cursor == 0,
                form.text_cursor == 0,
                form.form_focus,
                !form.everything_empty,
                form.hide@ == Map::<usize, bool>::empty(),
                forall|k: int| 0 <= k < i ==> !form.valid_at(k),
            decreases n - i,
        {
            if form.is_valid_cursor(i) {
                let ghost fpre = form;
                form.cursor = i;
                form.text_cursor = form.items[i].max_cursor();
                proof {
                    assert(form.items == fpre.items);
                    assert(form.hide == fpre.hide);
                    assert(form.valid_at(i as int)) by {
                        assert(fpre.valid_at(i as int));
                    }
                    assert forall|m: int| 0 <= m < form.cursor implies !form.valid_at(m) by {
                        assert(!fpre.valid_at(m));
                    }
                }
                return form;
            }
            i += 1;
        }
        let ghost fexit = form;
        if n > 0 {
            form.text_cursor = form.items[0].max_cursor();
        }
        proof {
            assert forall|k: int| !form.valid_at(k) by {
                assert(form.items == fexit.items);
                assert(form.hide == fexit.hide);
                if 0 <= k < n {
                    assert(!fexit.valid_at(k));
                }
            }
            assert(!form.has_valid());
        }
        form
    }

    pub fn set_form_focus(&mut self, focus: bool)
        ensures
            (*final(self) == Form { form_focus: focus, ..*old(self) }),
    {
        self.form_focus = focus;
    }

    pub fn show_everything_empty(&mut self, empty: bool)
        ensures
            (*final(self) == Form { everything_empty: empty, ..*old(self) }),
    {
        self.everything_empty = empty;
    }

    /// Hides the field at `idx`. The focus cursor is not moved, even when
    /// the focused field becomes hidden; relocating focus is the caller's
    /// responsibility.
    pub fn hide_item<E: FormItemIndex>(&mut self, idx: E)
        requires
            old(self).wf(),
            (idx.spec_index() as int) < old(self).items@.len(),
        ensures
            final(self).wf(),
            (*final(self) == Form { hide: final(self).hide, ..*old(self) }),
            final(self).hide@ == old(self).hide@.insert(idx.spec_index(), true),
    {
        let i = idx.index();
        self.hide.insert(i, true);
    }

    /// Unhides the field at `idx`.
    pub fn show_item<E: FormItemIndex>(&mut self, idx: E)
        requires
            old(self).wf(),
        ensures
            final(self).wf(),
            (*final(self) == Form { hide: final(self).hide, ..*old(self) }),
            final(self).hide@ == old(self).hide@.remove(idx.spec_index()),
    {
        let i = idx.index();
        self.hide.remove(&i);
    }

    pub fn hidden_count(&self) -> (r: usize)
        ensures
            r == self.hide@.len(),
    {
        self.hide.len()
    }

    /// The number of fields that rendering shows: the field count minus the
    /// hidden count.
    pub fn visible_count(&self) -> (r: usize)
        requires
            self.wf(),
        ensures
            r as int == self.items@.len() - self.hide@.len(),
    {
        proof {
            self.lemma_hidden_le();
        }
        let h = self.hide.len();
        self.items.len() - h
    }

    /// Index `idx` is interactive and not hidden.
    pub fn is_valid_cursor(&self, idx: usize) -> (r: bool)
        requires
            (idx as int) < self.items@.len(),
        ensures
            r == self.valid_at(idx as int),
    {
        if self.hide.contains_key(&idx) {
            return false;
        }
        self.items[idx].interactive()
    }

    /// Finds the first legal focus target circularly forward from the
    /// cursor, or reports that a full turn found none.
    fn find_next(&self) -> (r: Option<usize>)
        requires
            self.wf(),
            self.items@.len() > 0,
        ensures
            match r {
                Some(c) => self.is_next_valid(self.cursor as int, c as int),
                None => forall|j: int|
                    1 <= j <= self.items@.len() ==> !self.valid_at(
                        #[trigger] self.step_fwd(self.cursor as int, j),
                    ),
            },
    {
        let n = self.items.len();
        let c = self.cursor;
        let mut j: usize = 0;
        let mut cand: usize = c;
        proof {
            lemma_mod_small_sum(c as int, n as int);
        }
        while j < n
            invariant
                self.wf(),
                n == self.items@.len(),
                n > 0,
                c == self.cursor,
                j <= n,
                cand < n,
                cand as int == self.step_fwd(c as int, j as int),
                forall|k: int| 1 <= k <= j ==> !self.valid_at(#[trigger] self.step_fwd(c as int, k)),
            decreases n - j,
        {
            cand = if cand + 1 == n {
                0
            } else {
                cand + 1
            };
            j += 1;
            proof {
                lemma_mod_small_sum(c + j, n as int);
                lemma_mod_small_sum(c + j - 1, n as int);
            }
            if self.is_valid_cursor(cand) {
                proof {
                    assert(cand as int == self.step_fwd(c as int, j as int));
                    assert(self.next_witness(c as int, cand as int, j as int));
                }
                return Some(cand);
            }
        }
        None
    }

    /// Finds the first legal focus target circularly backward from the
    /// cursor, or reports that a full turn found none.
    fn find_prev(&self) -> (r: Option<usize>)
        requires
            self.wf(),
            self.items@.len() > 0,
        ensures
            match r {
                Some(c) => self.is_prev_valid(self.cursor as int, c as int),
                None => forall|j: int|
                    1 <= j <= self.items@.len() ==> !self.valid_at(
                        #[trigger] self.step_back(self.cursor as int, j),
                    ),
            },
    {
        let n = self.items.len();
        let c = self.cursor;
        let mut j: usize = 0;
        let mut cand: usize = c;
        proof {
            lemma_mod_small_sum(c + n, n as int);
        }
        while j < n
            invariant
                self.wf(),
                n == self.items@.len(),
                n > 0,
                c == self.cursor,
                j <= n,
                cand < n,
                cand as int == self.step_back(c as int, j as int),
                forall|k: int| 1 <= k <= j ==> !self.valid_at(#[trigger] self.step_back(c as int, k)),
            decreases n - j,
        {
            cand = if cand == 0 {
                n - 1
            } else {
                cand - 1
            };
            j += 1;
            proof {
                lemma_mod_small_sum(c + n - j, n as int);
                lemma_mod_small_sum(c + n - (j - 1), n as int);
            }
            if self.is_valid_cursor(cand) {
                proof {
                    assert(cand as int == self.step_back(c as int, j as int));
                    assert(self.prev_witness(c as int, cand as int, j as int));
                }
                return Some(cand);
            }
        }
        None
    }

    /// Every index is reached within one full forward turn, so a fruitless
    /// turn means no legal focus target exists at all.
    proof fn lemma_fwd_scan_complete(self)
        requires
            self.wf(),
            self.items@.len() > 0,
            forall|j: int|
                1 <= j <= self.items@.len() ==> !self.valid_at(
                    #[trigger] self.step_fwd(self.cursor as int, j),
                ),
        ensures
            !self.has_valid(),
    {
        let n = self.items@.len() as int;
        let c = self.cursor as int;
        assert forall|i: int| !self.valid_at(i) by {
            if 0 <= i < n {
                let j = if i > c {
                    i - c
                } else {
                    i - c + n
                };
                lemma_mod_small_sum(c + j, n);
                assert(self.step_fwd(c, j) == i);
                assert(!self.valid_at(self.step_fwd(c, j)));
            }
        }
    }

    /// Backward counterpart of [`Form::lemma_fwd_scan_complete`].
    proof fn lemma_back_scan_complete(self)
        requires
            self.wf(),
            self.items@.len() > 0,
            forall|j: int|
                1 <= j <= self.items@.len() ==> !self.valid_at(
                    #[trigger] self.step_back(self.cursor as int, j),
                ),
        ensures
            !self.has_valid(),
    {
        let n = self.items@.len() as int;
        let c = self.cursor as int;
        assert forall|i: int| !self.valid_at(i) by {
            if 0 <= i < n {
                let j = if i < c {
                    c - i
                } else {
                    c - i + n
                };
                lemma_mod_small_sum(c + n - j, n);
                assert(self.step_back(c, j) == i);
                assert(!self.valid_at(self.step_back(c, j)));
            }
        }
    }

    /// Moves focus circularly forward to the next interactive, non-hidden
    /// field and synchronizes the edit cursor. When no legal target exists
    /// (a degenerate form) the cursor stays where it is.
    pub fn advance_cursor(&mut self)
        requires
            old(self).wf(),
        ensures
            final(self).wf(),
            (*final(self) == Form {
                cursor: final(self).cursor,
                text_cursor: final(self).text_cursor,
                ..*old(self)
            }),
            old(self).has_valid() ==> old(self).is_next_valid(
                old(self).cursor as int,
                final(self).cursor as int,
            ),
            !old(self).has_valid() ==> final(self).cursor == old(self).cursor,
            final(self).text_cursor as int == if old(self).items@.len() > 0 {
                old(self).items@[final(self).cursor as int].spec_max_cursor()
            } else {
                old(self).text_cursor as int
            },
    {
        if self.items.len() == 0 {
            return;
        }
        match self.find_next() {
            Some(c) => {
                self.cursor = c;
            },
            None => {
                proof {
                    self.lemma_fwd_scan_complete();
                }
            },
        }
        self.update_text_cursor();
    }

    /// Moves focus circularly backward to the previous interactive,
    /// non-hidden field and synchronizes the edit cursor. When no legal
    /// target exists the cursor stays where it is.
    pub fn retreat_cursor(&mut self)
        requires
            old(self).wf(),
        ensures
            final(self).wf(),
            (*final(self) == Form {
                cursor: final(self).cursor,
                text_cursor: final(self).text_cursor,
                ..*old(self)
            }),
            old(self).has_valid() ==> old(self).is_prev_valid(
                old(self).cursor as int,
                final(self).cursor as int,
            ),
            !old(self).has_valid() ==> final(self).cursor == old(self).cursor,
            final(self).text_cursor as int == if old(self).items@.len() > 0 {
                old(self).items@[final(self).cursor as int].spec_max_cursor()
            } else {
                old(self).text_cursor as int
            },
    {
        if self.items.len() == 0 {
            return;
        }
        match self.find_prev() {
            Some(c) => {
                self.cursor = c;
            },
            None => {
                proof {
                    self.lemma_back_scan_complete();
                }
            },
        }
        self.update_text_cursor();
    }

    /// The text of the field at `idx`. Using it on a field without a text
    /// is a programmer-contract violation, excluded by `requires`.
    pub fn get_text<E: FormItemIndex>(&self, idx: E) -> (r: &String)
        requires
            (idx.spec_index() as int) < self.items@.len(),
            self.items@[idx.spec_index() as int].has_text(),
        ensures
            *r == self.items@[idx.spec_index() as int].text_value(),
    {
        let i = idx.index();
        match &self.items[i] {
            FormWidget::InputBox { text, .. } => text,
            FormWidget::DisplayBox { text, .. } => text,
            FormWidget::DisplayText(text) => text,
            FormWidget::ErrorText(text) => text,
            FormWidget::SelectInput { text, .. } => text,
            _ => unreached(),
        }
    }

    /// Mutable access to the text of the field at `idx`; everything but
    /// that text keeps its value.
    pub fn get_text_mut<E: FormItemIndex>(&mut self, idx: E) -> (r: &mut String)
        requires
            (idx.spec_index() as int) < old(self).items@.len(),
            old(self).items@[idx.spec_index() as int].has_text(),
        ensures
            *r == old(self).items@[idx.spec_index() as int].text_value(),
            (*final(self) == Form { items: final(self).items, ..*old(self) }),
            final(self).items@ == old(self).items@.update(
                idx.spec_index() as int,
                old(self).items@[idx.spec_index() as int].with_text(*final(r)),
            ),
    {
        let i = idx.index();
        match &mut self.items[i] {
            FormWidget::InputBox { text, .. } => text,
            FormWidget::DisplayBox { text, .. } => text,
            FormWidget::DisplayText(text) => text,
            FormWidget::ErrorText(text) => text,
            FormWidget::SelectInput { text, .. } => text,
            _ => unreached(),
        }
    }

    /// The value of the toggle at `idx`.
    pub fn get_boolean<E: FormItemIndex>(&self, idx: E) -> (r: bool)
        requires
            (idx.spec_index() as int) < self.items@.len(),
            self.items@[idx.spec_index() as int] is BooleanInput,
        ensures
            r == self.items@[idx.spec_index() as int].bool_value(),
    {
        let i = idx.index();
        match &self.items[i] {
            FormWidget::BooleanInput { value, .. } => *value,
            _ => unreached(),
        }
    }

    /// Mutable access to the value of the toggle at `idx`.
    pub fn get_boolean_mut<E: FormItemIndex>(&mut self, idx: E) -> (r: &mut bool)
        requires
            (idx.spec_index() as int) < old(self).items@.len(),
            old(self).items@[idx.spec_index() as int] is BooleanInput,
        ensures
            *r == old(self).items@[idx.spec_index() as int].bool_value(),
            (*final(self) == Form { items: final(self).items, ..*old(self) }),
            final(self).items@ == old(self).items@.update(
                idx.spec_index() as int,
                old(self).items@[idx.spec_index() as int].with_bool(*final(r)),
            ),
    {
        let i = idx.index();
        match &mut self.items[i] {
            FormWidget::BooleanInput { value, .. } => value,
            _ => unreached(),
        }
    }

    /// Mutable access to the currency annotation of the text input at
    /// `idx`.
    pub fn get_currency_mut<E: FormItemIndex>(&mut self, idx: E) -> (r: &mut Option<String>)
        requires
            (idx.spec_index() as int) < old(self).items@.len(),
            old(self).items@[idx.spec_index() as int] is InputBox,
        ensures
            *r == old(self).items@[idx.spec_index() as int].currency_value(),
            (*final(self) == Form { items: final(self).items, ..*old(self) }),
            final(self).items@ == old(self).items@.update(
                idx.spec_index() as int,
                old(self).items@[idx.spec_index() as int].with_currency(*final(r)),
            ),
    {
        let i = idx.index();
        match &mut self.items[i] {
            FormWidget::InputBox { currency, .. } => currency,
            _ => unreached(),
        }
    }

    /// Mutable access to the popup of the select field at `idx`.
    pub fn get_popup_mut<E: FormItemIndex>(&mut self, idx: E) -> (r: &mut FilterSelectPopup)
        requires
            (idx.spec_index() as int) < old(self).items@.len(),
            old(self).items@[idx.spec_index() as int] is SelectInput,
        ensures
            *r == old(self).items@[idx.spec_index() as int].popup_value(),
            (*final(self) == Form { items: final(self).items, ..*old(self) }),
            final(self).items@ == old(self).items@.update(
                idx.spec_index() as int,
                old(self).items@[idx.spec_index() as int].with_popup(*final(r)),
            ),
    {
        let i = idx.index();
        match &mut self.items[i] {
            FormWidget::SelectInput { popup, .. } => popup,
            _ => unreached(),
        }
    }

    /// The focus cursor rests on the field at `idx`.
    pub fn is_focused<E: FormItemIndex>(&self, idx: E) -> (r: bool)
        ensures
            r == (self.cursor == idx.spec_index()),
    {
        let i = idx.index();
        self.cursor == i
    }

    /// The focused field is a button.
    pub fn is_button_focused(&self) -> (r: bool)
        requires
            self.wf(),
        ensures
            r == (self.items@.len() > 0 && self.items@[self.cursor as int] is Button),
    {
        if self.items.len() == 0 {
            return false;
        }
        matches!(self.items[self.cursor], FormWidget::Button { .. })
    }

    /// Some select field's popup is open (and so owns all key input).
    pub open spec fn some_popup_open(self) -> bool {
        exists|i: int|
            0 <= i < self.items@.len() && (#[trigger] self.items@[i]) is SelectInput
                && self.items@[i].popup_value().shown
    }

    pub fn is_some_popup_open(&self) -> (r: bool)
        ensures
            r == self.some_popup_open(),
    {
        let n = self.items.len();
        let mut i: usize = 0;
        while i < n
            invariant
                n == self.items@.len(),
                i <= n,
                forall|k: int|
                    0 <= k < i ==> !((#[trigger] self.items@[k]) is SelectInput
                        && self.items@[k].popup_value().shown),
            decreases n - i,
        {
            match &self.items[i] {
                FormWidget::SelectInput { popup, .. } => {
                    if popup.is_open() {
                        proof {
                            assert(self.items@[i as int] is SelectInput);
                            assert(self.items@[i as int].popup_value().shown);
                        }
                        return true;
                    }
                },
                _ => {},
            }
            i += 1;
        }
        false
    }

    /// Whether this key press moves the focus cursor (step 1 of event
    /// handling): navigation is suppressed while any popup is open, and
    /// enter on a focused button activates instead of navigating.
    pub open spec fn nav_action(pre: Form, code: KeyCode) -> bool {
        &&& !pre.some_popup_open()
        &&& match code {
            KeyCode::Up => true,
            KeyCode::Down => true,
            KeyCode::Tab => true,
            KeyCode::Enter => !(pre.items@[pre.cursor as int] is Button),
            _ => false,
        }
    }

    /// Where the focus cursor lands after step 1.
    pub open spec fn nav_step(pre: Form, code: KeyCode, c2: int) -> bool {
        let c1 = pre.cursor as int;
        if !Self::nav_action(pre, code) || !pre.has_valid() {
            c2 == c1
        } else {
            match code {
                KeyCode::Up => pre.is_prev_valid(c1, c2),
                KeyCode::Down => pre.is_next_valid(c1, c2),
                KeyCode::Tab => pre.is_next_valid(c1, c2),
                KeyCode::Enter => pre.is_next_valid(c1, c2),
                _ => false,
            }
        }
    }

    /// The edit cursor after step 1: synchronized to the focused field
    /// whenever navigation ran, untouched otherwise.
    pub open spec fn text_cursor_after_nav(pre: Form, code: KeyCode, c2: int) -> int {
        if Self::nav_action(pre, code) {
            pre.items@[c2].spec_max_cursor()
        } else {
            pre.text_cursor as int
        }
    }

    /// Step 2 of event handling: the key press is forwarded to the
    /// now-focused field's kind-specific handler. `c2` is the focus cursor
    /// after step 1 and `r` the activated button index handed back to the
    /// caller.
    pub open spec fn dispatch_step(
        pre: Form,
        ev: Event,
        c2: int,
        post: Form,
        r: Option<usize>,
    ) -> bool {
        let code = ev.key_code();
        let w = pre.items@[c2];
        let t1 = Self::text_cursor_after_nav(pre, code, c2);
        match w {
            FormWidget::InputBox { .. } => {
                let e = edit_step(w.text_view(), t1, code);
                &&& post.items@ == pre.items@.update(c2, w.with_text(post.items@[c2].text_value()))
                &&& post.items@[c2].text_value()@ == e.0
                &&& post.text_cursor as int == e.1
                &&& r is None
            },
            FormWidget::BooleanInput { .. } => {
                &&& if Self::toggles(code) {
                    &&& post.items@ == pre.items@.update(c2, w.with_bool(!w.bool_value()))
                    &&& post.text_cursor as int == if !w.bool_value() {
                        4int
                    } else {
                        5int
                    }
                } else {
                    &&& post.items@ == pre.items@
                    &&& post.text_cursor as int == t1
                }
                &&& r is None
            },
            FormWidget::SelectInput { .. } => {
                let p0 = w.popup_value();
                &&& exists|sel: Option<String>, midp: FilterSelectPopup|
                    #[trigger] FilterSelectPopup::step(p0, midp, ev, sel) && Self::dispatch_select(
                        pre,
                        ev,
                        c2,
                        post,
                        midp,
                        sel,
                    )
                &&& r is None
            },
            FormWidget::Button { .. } => {
                &&& post.items@ == pre.items@
                &&& post.text_cursor as int == t1
                &&& r == (if code == KeyCode::Enter {
                    Some(c2 as usize)
                } else {
                    None::<usize>
                })
            },
            _ => {
                &&& post.items@ == pre.items@
                &&& post.text_cursor as int == t1
                &&& r is None
            },
        }
    }

    /// The select-field part of step 2: the popup has already consumed the
    /// event (moving from the field's popup to `midp`, committing `sel`);
    /// a committed candidate becomes the field text with the edit cursor at
    /// its end, and a backspace or printable character reopens a popup that
    /// is (or just) closed, seeding the filter from that character.
    pub open spec fn dispatch_select(
        pre: Form,
        ev: Event,
        c2: int,
        post: Form,
        midp: FilterSelectPopup,
        sel: Option<String>,
    ) -> bool {
        let code = ev.key_code();
        let w = pre.items@[c2];
        let t1 = Self::text_cursor_after_nav(pre, code, c2);
        let newtext = match sel {
            Some(s) => s,
            None => w.text_value(),
        };
        let p2 = post.items@[c2].popup_value();
        &&& post.text_cursor as int == (match sel {
            Some(s) => s@.len() as int,
            None => t1,
        })
        &&& post.items@ == pre.items@.update(c2, w.with_text(newtext).with_popup(p2))
        &&& if !midp.shown && Self::reopens(code) {
            &&& p2.items == midp.items
            &&& p2.shown
            &&& p2.cursor == 0
            &&& p2.search@ == (match code {
                KeyCode::Char(ch) => seq![ch],
                _ => Seq::<char>::empty(),
            })
        } else {
            p2 == midp
        }
    }

    /// The keys that flip a boolean toggle.
    pub open spec fn toggles(code: KeyCode) -> bool {
        match code {
            KeyCode::Char(_) => true,
            KeyCode::Left => true,
            KeyCode::Right => true,
            KeyCode::Backspace => true,
            _ => false,
        }
    }

    /// The keys that reopen a closed select popup.
    pub open spec fn reopens(code: KeyCode) -> bool {
        match code {
            KeyCode::Char(_) => true,
            KeyCode::Backspace => true,
            _ => false,
        }
    }

    /// Routes one input event: navigation keys move the focus cursor
    /// (step 1), then the event is also forwarded to the now-focused
    /// field's handler (step 2). While any popup is open, navigation is
    /// suppressed and the popup alone consumes the event. Returns the index
    /// of the activated button, if any; the caller resolves it to its
    /// field identifier and runs its callback.
    pub fn handle_event(&mut self, event: &Event) -> (r: Option<usize>)
        requires
            old(self).wf(),
        ensures
            final(self).wf(),
            (*final(self) == Form {
                cursor: final(self).cursor,
                text_cursor: final(self).text_cursor,
                items: final(self).items,
                ..*old(self)
            }),
            final(self).items@.len() == old(self).items@.len(),
            (!event.is_press() || old(self).items@.len() == 0) ==> *final(self) == *old(self)
                && r is None,
            (event.is_press() && old(self).items@.len() > 0) ==> Self::nav_step(
                *old(self),
                event.key_code(),
                final(self).cursor as int,
            ),
            (event.is_press() && old(self).items@.len() > 0) ==> Self::dispatch_step(
                *old(self),
                *event,
                final(self).cursor as int,
                *final(self),
                r,
            ),
    {
        if !event.is_char_pressed(None) {
            return None;
        }
        let n = self.items.len();
        if n == 0 {
            return None;
        }
        let code = match event {
            Event::Input(k) => k.code,
            _ => KeyCode::Other,
        };
        if !self.is_some_popup_open() {
            match code {
                KeyCode::Up => {
                    self.retreat_cursor();
                },
                KeyCode::Down => {
                    self.advance_cursor();
                },
                KeyCode::Tab => {
                    self.advance_cursor();
                },
                KeyCode::Enter => {
                    if !self.is_button_focused() {
                        self.advance_cursor();
                    }
                },
                _ => {},
            }
        }
        let ghost mid = *self;
        let c = self.cursor;
        let mut activated: Option<usize> = None;
        let ghost mut gsel: Option<String> = None;
        let ghost mut gmidp: FilterSelectPopup = arbitrary();
        match &mut self.items[c] {
            FormWidget::InputBox { text, .. } => {
                let mut t = self.text_cursor;
                handle_text_edit(text, &mut t, event);
                self.text_cursor = t;
            },
            FormWidget::DisplayBox { .. } => {},
            FormWidget::BooleanInput { value, .. } => {
                let flip = matches!(
                    code,
                    KeyCode::Char(_) | KeyCode::Left | KeyCode::Right | KeyCode::Backspace
                );
                if flip {
                    *value = !*value;
                    let tc: usize = if *value {
                        4
                    } else {
                        5
                    };
                    self.text_cursor = tc;
                }
            },
            FormWidget::SelectInput { text, popup, .. } => {
                let sel = popup.handle_event(event);
                proof {
                    gmidp = *popup;
                    gsel = sel;
                }
                match sel {
                    Some(s) => {
                        let l = s.as_str().unicode_len();
                        *text = s;
                        self.text_cursor = l;
                    },
                    None => {},
                }
                if !popup.is_open() {
                    match code {
                        KeyCode::Backspace => {
                            popup.open();
                        },
                        KeyCode::Char(ch) => {
                            popup.open();
                            popup.push_filter(ch);
                        },
                        _ => {},
                    }
                }
            },
            FormWidget::Button { .. } => {
                if matches!(code, KeyCode::Enter) {
                    activated = Some(c);
                }
            },
            _ => {},
        }
        proof {
            let pre = *old(self);
            let post = *self;
            let ev = *event;
            let code2 = ev.key_code();
            let c2 = c as int;
            let w = pre.items@[c2];
            let t1 = Self::text_cursor_after_nav(pre, code2, c2);
            assert(mid.items == pre.items);
            assert(mid.text_cursor as int == t1);
            match w {
                FormWidget::InputBox { .. } => {
                    assert(w.text_view() == w.text_value()@);
                    assert(post.items@ =~= pre.items@.update(
                        c2,
                        w.with_text(post.items@[c2].text_value()),
                    ));
                },
                FormWidget::BooleanInput { .. } => {
                    if Self::toggles(code2) {
                        assert(post.items@ =~= pre.items@.update(c2, w.with_bool(!w.bool_value())));
                    } else {
                        assert(post.items@ =~= pre.items@);
                    }
                },
                FormWidget::SelectInput { .. } => {
                    let p0 = w.popup_value();
                    assert(FilterSelectPopup::step(p0, gmidp, ev, gsel));
                    let p2 = post.items@[c2].popup_value();
                    let newtext = match gsel {
                        Some(s) => s,
                        None => w.text_value(),
                    };
                    assert(post.items@ =~= pre.items@.update(c2, w.with_text(newtext).with_popup(p2)));
                    assert(Self::dispatch_select(pre, ev, c2, post, gmidp, gsel));
                },
                FormWidget::Button { .. } => {
                    assert(post.items@ =~= pre.items@);
                },
                _ => {
                    assert(post.items@ =~= pre.items@);
                },
            }
        }
        activated
    }

    /// Recomputes the edit cursor from the focused field.
    pub fn update_text_cursor(&mut self)
        requires
            old(self).wf(),
            old(self).items@.len() > 0,
        ensures
            (*final(self) == Form { text_cursor: final(self).text_cursor, ..*old(self) }),
            final(self).text_cursor as int == old(self).items@[old(
                self,
            ).cursor as int].spec_max_cursor(),
    {
        self.text_cursor = self.items[self.cursor].max_cursor();
    }
}

/// The set of machine indices below `n` is finite and has `n` elements.
proof fn lemma_usize_range(n: int)
    requires
        0 <= n <= usize::MAX,
    ensures
        Set::<usize>::new(|k: usize| (k as int) < n).finite(),
        Set::<usize>::new(|k: usize| (k as int) < n).len() == n,
    decreases n,
{
    if n == 0 {
        assert(Set::<usize>::new(|k: usize| (k as int) < 0) =~= Set::<usize>::empty());
    } else {
        lemma_usize_range(n - 1);
        assert(Set::<usize>::new(|k: usize| (k as int) < n) =~= Set::<usize>::new(
            |k: usize| (k as int) < n - 1,
        ).insert((n - 1) as usize));
    }
}

} // verus!
