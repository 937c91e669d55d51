//! The filter-select popup: a transient overlay bound to one select field.
//!
//! While open it is the sole consumer of key input for the owning form:
//! printable characters narrow a candidate list by substring match, up/down
//! move a highlight over the narrowed list, enter commits the highlighted
//! candidate and escape dismisses the popup without selecting.

use vstd::prelude::*;
use crate::events::{Event, KeyCode};

verus! {

/// `q` occurs in `cand` starting at position `i`.
pub open spec fn match_at(cand: Seq<char>, q: Seq<char>, i: int) -> bool {
    &&& 0 <= i
    &&& i + q.len() <= cand.len()
    &&& cand.subrange(i, i + q.len() as int) == q
}

/// `q` occurs somewhere in `cand` (the empty query occurs everywhere).
pub open spec fn is_match(cand: Seq<char>, q: Seq<char>) -> bool {
    exists|i: int| match_at(cand, q, i)
}

/// The candidates that the query keeps, in their original order.
pub open spec fn filtered_spec(items: Seq<String>, q: Seq<char>) -> Seq<String> {
    items.filter(|s: String| is_match(s@, q))
}

proof fn lemma_filtered_push(s: Seq<String>, x: String, q: Seq<char>)
    ensures
        filtered_spec(s.push(x), q) == if is_match(x@, q) {
            filtered_spec(s, q).push(x)
        } else {
            filtered_spec(s, q)
        },
{
    reveal(Seq::filter);
    assert(s.push(x).drop_last() =~= s);
    assert(s.push(x).last() == x);
}

/// Whether `q` occurs in `cand` as a contiguous run of characters.
pub fn matches_query(cand: &str, q: &str) -> (r: bool)
    ensures
        r == is_match(cand@, q@),
{
    let n = cand.unicode_len();
    let m = q.unicode_len();
    if m > n {
        assert(forall|i: int| !match_at(cand@, q@, i));
        return false;
    }
    let mut i: usize = 0;
    while i <= n - m
        invariant
            m <= n,
            n == cand@.len(),
            m == q@.len(),
            i <= n - m + 1,
            forall|k: int| 0 <= k < i ==> !match_at(cand@, q@, k),
        decreases n - m + 1 - i,
    {
        let mut j: usize = 0;
        let mut ok = true;
        while ok && j < m
            invariant
                m <= n,
                n == cand@.len(),
                m == q@.len(),
                i + m <= n,
                j <= m,
                ok ==> forall|t: int| 0 <= t < j ==> cand@[i + t] == q@[t],
                !ok ==> !match_at(cand@, q@, i as int),
            decreases m - j + (if ok { 1int } else { 0int }),
        {
            if cand.get_char(i + j) != q.get_char(j) {
                proof {
                    if match_at(cand@, q@, i as int) {
                        assert(cand@.subrange(i as int, i + m)[j as int] == q@[j as int]);
                        assert(cand@[i + j] == q@[j as int]);
                    }
                }
                ok = false;
            } else {
                j += 1;
            }
        }
        if ok {
            proof {
                assert forall|t: int| 0 <= t < m implies cand@.subrange(i as int, i + m as int)[t]
                    == q@[t] by {
                    assert(cand@[i + t] == q@[t]);
                }
                assert(cand@.subrange(i as int, i + m) =~= q@);
                assert(match_at(cand@, q@, i as int));
            }
            return true;
        }
        proof {
            if m == 0 {
                assert(cand@.subrange(i as int, i as int) =~= q@);
                assert(match_at(cand@, q@, i as int));
            }
        }
        i += 1;
    }
    proof {
        assert forall|k: int| !match_at(cand@, q@, k) by {
            if 0 <= k && k + m <= n {
                assert(k < i);
            }
        }
    }
    false
}

/// A filterable select overlay. It owns its open/closed state, the active
/// filter text and the highlight position within the filtered list.
#[derive(Clone, Debug)]
pub struct FilterSelectPopup {
    /// The full candidate list the popup was built over.
    pub items: Vec<String>,
    /// Whether the overlay is currently open (capturing all input).
    pub shown: bool,
    /// The active filter text.
    pub search: String,
    /// Highlight index into the filtered candidate list.
    pub cursor: usize,
}

impl FilterSelectPopup {
    /// How one input event transforms the popup and which candidate, if any,
    /// it commits. A closed popup ignores every event; an open one reacts to
    /// key presses only.
    pub open spec fn step(pre: Self, post: Self, ev: Event, sel: Option<String>) -> bool {
        &&& post.items == pre.items
        &&& if !(pre.shown && ev.is_press()) {
            post == pre && sel is None
        } else {
            match ev.key_code() {
                KeyCode::Char(c) => {
                    &&& post.shown
                    &&& post.search@ == pre.search@.push(c)
                    &&& post.cursor == 0
                    &&& sel is None
                },
                KeyCode::Backspace => {
                    &&& post.shown
                    &&& post.search@ == if pre.search@.len() > 0 {
                        pre.search@.drop_last()
                    } else {
                        pre.search@
                    }
                    &&& post.cursor == 0
                    &&& sel is None
                },
                KeyCode::Up => {
                    &&& post.shown
                    &&& post.search == pre.search
                    &&& post.cursor == if pre.cursor > 0 {
                        (pre.cursor - 1) as usize
                    } else {
                        0usize
                    }
                    &&& sel is None
                },
                KeyCode::Down => {
                    &&& post.shown
                    &&& post.search == pre.search
                    &&& post.cursor == if pre.cursor + 1 < filtered_spec(pre.items@, pre.search@).len() {
                        (pre.cursor + 1) as usize
                    } else {
                        pre.cursor
                    }
                    &&& sel is None
                },
                KeyCode::Enter => {
                    let f = filtered_spec(pre.items@, pre.search@);
                    if pre.cursor < f.len() {
                        &&& !post.shown
                        &&& post.search == pre.search
                        &&& post.cursor == pre.cursor
                        &&& sel == Some(f[pre.cursor as int])
                    } else {
                        post == pre && sel is None
                    }
                },
                KeyCode::Esc => {
                    &&& !post.shown
                    &&& post.search == pre.search
                    &&& post.cursor == pre.cursor
                    &&& sel is None
                },
                _ => post == pre && sel is None,
            }
        }
    }

    /// A closed popup over the given candidates, with an empty filter.
    pub fn new(items: Vec<String>) -> (r: Self)
        ensures
            r.items == items,
            !r.shown,
            r.search@ == Seq::<char>::empty(),
            r.cursor == 0,
    {
        FilterSelectPopup { items, shown: false, search: String::new(), cursor: 0 }
    }

    pub fn is_open(&self) -> (r: bool)
        ensures
            r == self.shown,
    {
        self.shown
    }

    /// Enters the open state and resets the filter and the highlight.
    pub fn open(&mut self)
        ensures
            final(self).items == old(self).items,
            final(self).shown,
            final(self).search@ == Seq::<char>::empty(),
            final(self).cursor == 0,
    {
        self.shown = true;
        self.search = String::new();
        self.cursor = 0;
    }

    /// Appends one character to the filter and resets the highlight; used to
    /// seed the filter when typing reopens the popup.
    pub fn push_filter(&mut self, c: char)
        ensures
            final(self).items == old(self).items,
            final(self).shown == old(self).shown,
            final(self).search@ == old(self).search@.push(c),
            final(self).cursor == 0,
    {
        string_push(&mut self.search, c);
        self.cursor = 0;
    }

    /// The candidates the active filter keeps, in order.
    pub fn filtered(&self) -> (r: Vec<String>)
        ensures
            r@ == filtered_spec(self.items@, self.search@),
    {
        let ghost q = self.search@;
        let mut r: Vec<String> = Vec::new();
        let mut i: usize = 0;
        while i < self.items.len()
            invariant
                i <= self.items@.len(),
                q == self.search@,
                r@ == filtered_spec(self.items@.take(i as int), q),
            decreases self.items@.len() - i,
        {
            proof {
                assert(self.items@.take(i + 1) =~= self.items@.take(i as int).push(
                    self.items@[i as int],
                ));
                lemma_filtered_push(self.items@.take(i as int), self.items@[i as int], q);
            }
            if matches_query(self.items[i].as_str(), self.search.as_str()) {
                r.push(self.items[i].clone());
            }
            i += 1;
        }
        proof {
            assert(self.items@.take(self.items@.len() as int) =~= self.items@);
        }
        r
    }

    /// Consumes one event while open, per [`FilterSelectPopup::step`];
    /// returns the committed candidate when enter selects one.
    pub fn handle_event(&mut self, event: &Event) -> (sel: Option<String>)
        ensures
            Self::step(*old(self), *final(self), *event, sel),
    {
        if !self.shown || !event.is_char_pressed(None) {
            return None;
        }
        match event {
            Event::Input(k) => {
                match k.code {
                    KeyCode::Char(c) => {
                        string_push(&mut self.search, c);
                        self.cursor = 0;
                        None
                    },
                    KeyCode::Backspace => {
                        let m = self.search.unicode_len();
                        if m > 0 {
                            self.search = self.search.as_str().substring_char(0, m - 1).to_owned();
                        }
                        self.cursor = 0;
                        None
                    },
                    KeyCode::Up => {
                        if self.cursor > 0 {
                            self.cursor = self.cursor - 1;
                        }
                        None
                    },
                    KeyCode::Down => {
                        let f = self.filtered();
                        let fl = f.len();
                        if self.cursor < fl && self.cursor + 1 < fl {
                            self.cursor = self.cursor + 1;
                        }
                        None
                    },
                    KeyCode::Enter => {
                        let f = self.filtered();
                        if self.cursor < f.len() {
                            self.shown = false;
                            Some(f[self.cursor].clone())
                        } else {
                            None
                        }
                    },
                    KeyCode::Esc => {
                        self.shown = false;
                        None
                    },
                    _ => None,
                }
            },
            _ => None,
        }
    }
}

/// Relies on std's `String::push`: appends exactly one character.
#[verifier::external_body]
pub(crate) fn string_push(s: &mut String, c: char)
    ensures
        final(s)@ == old(s)@.push(c),
{
    s.push(c);
}

} // verus!
