//! The navigation and interaction laws of the form engine, proved against
//! the contracts of [`Form`]'s methods.
//!
//! `advance_cursor` and `retreat_cursor` promise `is_next_valid` /
//! `is_prev_valid` of the old and new cursor. This module shows that those
//! relations are deterministic, inverse to each other, close into a cycle
//! whose length is the number of visible interactive fields, and degenerate
//! to a self-loop when only one legal focus target remains.

use vstd::prelude::*;
use crate::form::{Form, lemma_mod_small_sum};
use crate::widget::FormWidget;
use crate::popup::{FilterSelectPopup, filtered_spec};
use crate::events::{Event, KeyCode};

verus! {

impl Form {
    /// The indices that are interactive and not hidden, in increasing
    /// order, among the first `n` fields.
    pub open spec fn valid_seq_upto(self, n: int) -> Seq<int>
        decreases n,
    {
        if n <= 0 {
            Seq::empty()
        } else if self.valid_at(n - 1) {
            self.valid_seq_upto(n - 1).push(n - 1)
        } else {
            self.valid_seq_upto(n - 1)
        }
    }

    /// All legal focus targets, in increasing order.
    pub open spec fn valid_seq(self) -> Seq<int> {
        self.valid_seq_upto(self.items@.len() as int)
    }

    /// The number of legal focus targets: the visible interactive fields.
    pub open spec fn valid_count(self) -> nat {
        self.valid_seq().len()
    }

    /// The unique focus target `advance_cursor` moves to from `c`.
    pub open spec fn next_of(self, c: int) -> int {
        choose|c2: int| self.is_next_valid(c, c2)
    }

    /// The cursor after `k` advances from `c`.
    pub open spec fn next_iter(self, c: int, k: nat) -> int
        decreases k,
    {
        if k == 0 {
            c
        } else {
            self.next_of(self.next_iter(c, (k - 1) as nat))
        }
    }

    /// `valid_seq_upto(n)` is sorted, complete and exact below `n`.
    proof fn lemma_valid_seq_props(self, n: int)
        requires
            0 <= n,
        ensures
            ({
                let vs = self.valid_seq_upto(n);
                &&& forall|p: int|
                    0 <= p < vs.len() ==> self.valid_at(#[trigger] vs[p]) && vs[p] < n
                &&& forall|p: int, q: int| 0 <= p < q < vs.len() ==> vs[p] < vs[q]
                &&& forall|i: int| 0 <= i < n && self.valid_at(i) ==> vs.contains(i)
            }),
        decreases n,
    {
        if n > 0 {
            self.lemma_valid_seq_props(n - 1);
            let vs = self.valid_seq_upto(n);
            let rest = self.valid_seq_upto(n - 1);
            assert forall|i: int| 0 <= i < n && self.valid_at(i) implies vs.contains(i) by {
                if i < n - 1 {
                    assert(rest.contains(i));
                    let p = choose|p: int| 0 <= p < rest.len() && rest[p] == i;
                    assert(vs[p] == i);
                } else {
                    assert(self.valid_at(n - 1));
                    assert(vs.last() == n - 1);
                }
            }
        }
    }

    /// Two "first target forward" claims from the same start agree.
    pub proof fn lemma_next_unique(self, c: int, a: int, b: int)
        requires
            self.is_next_valid(c, a),
            self.is_next_valid(c, b),
        ensures
            a == b,
    {
        let ja = choose|j: int| self.next_witness(c, a, j);
        let jb = choose|j: int| self.next_witness(c, b, j);
        if ja < jb {
            assert(!self.valid_at(self.step_fwd(c, ja)));
        } else if jb < ja {
            assert(!self.valid_at(self.step_fwd(c, jb)));
        }
    }

    /// Two "first target backward" claims from the same start agree.
    pub proof fn lemma_prev_unique(self, c: int, a: int, b: int)
        requires
            self.is_prev_valid(c, a),
            self.is_prev_valid(c, b),
        ensures
            a == b,
    {
        let ja = choose|j: int| self.prev_witness(c, a, j);
        let jb = choose|j: int| self.prev_witness(c, b, j);
        if ja < jb {
            assert(!self.valid_at(self.step_back(c, ja)));
        } else if jb < ja {
            assert(!self.valid_at(self.step_back(c, jb)));
        }
    }

    /// What `advance_cursor` promises pins the cursor to `next_of`.
    pub proof fn lemma_next_valid_is_next_of(self, c1: int, c2: int)
        requires
            self.is_next_valid(c1, c2),
        ensures
            c2 == self.next_of(c1),
    {
        self.lemma_next_unique(c1, c2, self.next_of(c1));
    }

    /// Stepping back from where `advance_cursor` landed returns exactly to
    /// the start: the first target backward from `next` is `c` again.
    pub proof fn lemma_retreat_undoes_advance(self, c1: int, c2: int)
        requires
            self.wf(),
            0 <= c1 < self.items@.len(),
            self.valid_at(c1),
            self.is_next_valid(c1, c2),
        ensures
            self.is_prev_valid(c2, c1),
    {
        let n = self.items@.len() as int;
        let j = choose|j: int| self.next_witness(c1, c2, j);
        lemma_mod_small_sum(c1 + j, n);
        lemma_mod_small_sum(c2 + n - j, n);
        assert(self.step_back(c2, j) == c1);
        assert forall|m: int| 1 <= m < j implies !self.valid_at(
            #[trigger] self.step_back(c2, m),
        ) by {
            lemma_mod_small_sum(c2 + n - m, n);
            lemma_mod_small_sum(c1 + (j - m), n);
            assert(self.step_back(c2, m) == self.step_fwd(c1, j - m));
            assert(!self.valid_at(self.step_fwd(c1, j - m)));
        }
        assert(self.prev_witness(c2, c1, j));
    }

    /// Stepping forward from where `retreat_cursor` landed returns exactly
    /// to the start.
    pub proof fn lemma_advance_undoes_retreat(self, c1: int, c2: int)
        requires
            self.wf(),
            0 <= c1 < self.items@.len(),
            self.valid_at(c1),
            self.is_prev_valid(c1, c2),
        ensures
            self.is_next_valid(c2, c1),
    {
        let n = self.items@.len() as int;
        let j = choose|j: int| self.prev_witness(c1, c2, j);
        lemma_mod_small_sum(c1 + n - j, n);
        lemma_mod_small_sum(c2 + j, n);
        assert(self.step_fwd(c2, j) == c1);
        assert forall|m: int| 1 <= m < j implies !self.valid_at(
            #[trigger] self.step_fwd(c2, m),
        ) by {
            lemma_mod_small_sum(c2 + m, n);
            lemma_mod_small_sum(c1 + n - (j - m), n);
            assert(self.step_fwd(c2, m) == self.step_back(c1, j - m));
            assert(!self.valid_at(self.step_back(c1, j - m)));
        }
        assert(self.next_witness(c2, c1, j));
    }

    /// `advance_cursor` followed by `retreat_cursor` restores the prior
    /// cursor: `c2` is where advancing from `c1` lands, `c3` where
    /// retreating from `c2` lands, and `c3 == c1`.
    pub proof fn lemma_advance_then_retreat_restores(self, c1: int, c2: int, c3: int)
        requires
            self.wf(),
            0 <= c1 < self.items@.len(),
            self.valid_at(c1),
            self.is_next_valid(c1, c2),
            self.is_prev_valid(c2, c3),
        ensures
            c3 == c1,
    {
        self.lemma_retreat_undoes_advance(c1, c2);
        self.lemma_prev_unique(c2, c1, c3);
    }

    /// `retreat_cursor` followed by `advance_cursor` restores the prior
    /// cursor.
    pub proof fn lemma_retreat_then_advance_restores(self, c1: int, c2: int, c3: int)
        requires
            self.wf(),
            0 <= c1 < self.items@.len(),
            self.valid_at(c1),
            self.is_prev_valid(c1, c2),
            self.is_next_valid(c2, c3),
        ensures
            c3 == c1,
    {
        self.lemma_advance_undoes_retreat(c1, c2);
        self.lemma_next_unique(c2, c1, c3);
    }

    /// When the focused field is the only legal target, advancing and
    /// retreating stay put instead of looping forever: the scan returns the
    /// same index after a full turn.
    pub proof fn lemma_single_target_self_loop(self)
        requires
            self.wf(),
            self.valid_at(self.cursor as int),
            forall|i: int| self.valid_at(i) ==> i == self.cursor as int,
        ensures
            self.is_next_valid(self.cursor as int, self.cursor as int),
            self.is_prev_valid(self.cursor as int, self.cursor as int),
    {
        let n = self.items@.len() as int;
        let c = self.cursor as int;
        lemma_mod_small_sum(c + n, n);
        lemma_mod_small_sum(c, n);
        assert(self.step_fwd(c, n) == c);
        assert(self.step_back(c, n) == c);
        assert forall|k: int| 1 <= k < n implies !self.valid_at(#[trigger] self.step_fwd(c, k)) by {
            lemma_mod_small_sum(c + k, n);
            if self.valid_at(self.step_fwd(c, k)) {
                assert(self.step_fwd(c, k) == c);
            }
        }
        assert forall|k: int| 1 <= k < n implies !self.valid_at(
            #[trigger] self.step_back(c, k),
        ) by {
            lemma_mod_small_sum(c + n - k, n);
            if self.valid_at(self.step_back(c, k)) {
                assert(self.step_back(c, k) == c);
            }
        }
        assert(self.next_witness(c, c, n));
        assert(self.prev_witness(c, c, n));
    }

    /// Advancing from the target at position `p` of the sorted target list
    /// lands on the target at position `(p + 1) % count`.
    proof fn lemma_next_is_succ(self, p: int)
        requires
            self.wf(),
            0 <= p < self.valid_seq().len(),
        ensures
            self.is_next_valid(
                self.valid_seq()[p],
                self.valid_seq()[(p + 1) % (self.valid_seq().len() as int)],
            ),
    {
        let n = self.items@.len() as int;
        let vs = self.valid_seq();
        let vlen = vs.len() as int;
        self.lemma_valid_seq_props(n);
        let a = vs[p];
        lemma_mod_small_sum(p + 1, vlen);
        if p < vlen - 1 {
            let b = vs[p + 1];
            let j = b - a;
            lemma_mod_small_sum(a + j, n);
            assert(self.step_fwd(a, j) == b);
            assert forall|k: int| 1 <= k < j implies !self.valid_at(
                #[trigger] self.step_fwd(a, k),
            ) by {
                lemma_mod_small_sum(a + k, n);
                let x = a + k;
                if self.valid_at(x) {
                    assert(vs.contains(x));
                    let q = choose|q: int| 0 <= q < vs.len() && vs[q] == x;
                    if q <= p {
                        assert(vs[q] <= vs[p]);
                    } else {
                        assert(vs[q] >= vs[p + 1]);
                    }
                }
            }
            assert(self.next_witness(a, b, j));
        } else {
            let b = vs[0];
            if vlen == 1 {
                assert(b == a);
                lemma_mod_small_sum(a + n, n);
                assert(self.step_fwd(a, n) == a);
                assert forall|k: int| 1 <= k < n implies !self.valid_at(
                    #[trigger] self.step_fwd(a, k),
                ) by {
                    lemma_mod_small_sum(a + k, n);
                    let x = self.step_fwd(a, k);
                    if self.valid_at(x) {
                        assert(vs.contains(x));
                        let q = choose|q: int| 0 <= q < vs.len() && vs[q] == x;
                        assert(q == 0);
                        assert(x == a);
                    }
                }
                assert(self.next_witness(a, a, n));
            } else {
                let j = n - a + b;
                lemma_mod_small_sum(n + b, n);
                assert(self.step_fwd(a, j) == b);
                assert forall|k: int| 1 <= k < j implies !self.valid_at(
                    #[trigger] self.step_fwd(a, k),
                ) by {
                    lemma_mod_small_sum(a + k, n);
                    let x = self.step_fwd(a, k);
                    if self.valid_at(x) {
                        assert(vs.contains(x));
                        let q = choose|q: int| 0 <= q < vs.len() && vs[q] == x;
                        if q < vlen - 1 {
                            assert(vs[q] < vs[vlen - 1]);
                        }
                        if a + k < n {
                            assert(x > a);
                            assert(vs[q] <= vs[vlen - 1]);
                        } else {
                            assert(x == a + k - n);
                            assert(x < b);
                            if q > 0 {
                                assert(vs[0] < vs[q]);
                            }
                        }
                    }
                }
                assert(self.next_witness(a, b, j));
            }
        }
    }

    /// After `k` advances from position `p`, the cursor sits at position
    /// `(p + k) % count` of the sorted target list.
    proof fn lemma_next_iter_pos(self, p: int, k: nat)
        requires
            self.wf(),
            0 <= p < self.valid_seq().len(),
        ensures
            self.next_iter(self.valid_seq()[p], k) == self.valid_seq()[(p + k) % (
            self.valid_seq().len() as int)],
        decreases k,
    {
        let vs = self.valid_seq();
        let vlen = vs.len() as int;
        if k == 0 {
            lemma_mod_small_sum(p, vlen);
        } else {
            self.lemma_next_iter_pos(p, (k - 1) as nat);
            let q = (p + k - 1) % vlen;
            vstd::arithmetic::div_mod::lemma_mod_pos_bound(p + k - 1, vlen);
            self.lemma_next_is_succ(q);
            self.lemma_next_valid_is_next_of(vs[q], vs[(q + 1) % vlen]);
            lemma_mod_small_sum(q + 1, vlen);
            vstd::arithmetic::div_mod::lemma_add_mod_noop(p + k - 1, 1, vlen);
            if vlen == 1 {
                lemma_mod_small_sum(1, vlen);
            } else {
                lemma_mod_small_sum(1, vlen);
            }
            assert((q + 1) % vlen == (p + k) % vlen);
        }
    }

    /// Cycle closure: starting from any legal focus target, as many
    /// advances as there are visible interactive fields return the cursor
    /// to its starting index.
    pub proof fn lemma_advance_cycle_closure(self)
        requires
            self.wf(),
            self.valid_at(self.cursor as int),
        ensures
            self.next_iter(self.cursor as int, self.valid_count()) == self.cursor as int,
    {
        let n = self.items@.len() as int;
        let c = self.cursor as int;
        let vs = self.valid_seq();
        let vlen = vs.len() as int;
        self.lemma_valid_seq_props(n);
        assert(vs.contains(c));
        let p = choose|p: int| 0 <= p < vs.len() && vs[p] == c;
        self.lemma_next_iter_pos(p, self.valid_count());
        lemma_mod_small_sum(p + vlen, vlen);
    }
}

/// The value of a toggle after `k` flips.
pub open spec fn flip_n(b: bool, k: nat) -> bool
    decreases k,
{
    if k == 0 {
        b
    } else {
        !flip_n(b, (k - 1) as nat)
    }
}

/// Toggling a boolean field an even number of times restores its original
/// value; an odd number flips it. Each qualifying key press flips the
/// focused toggle exactly once, per [`Form::dispatch_step`].
pub proof fn lemma_toggle_parity(b: bool, k: nat)
    ensures
        flip_n(b, k) == if k % 2 == 0 {
            b
        } else {
            !b
        },
    decreases k,
{
    if k > 0 {
        lemma_toggle_parity(b, (k - 1) as nat);
    }
}

/// Typing a character into a focused select field whose popup is closed
/// reopens the popup, with the filter seeded from that character.
pub proof fn lemma_char_reopens_popup(
    pre: Form,
    ev: Event,
    c2: int,
    post: Form,
    r: Option<usize>,
    ch: char,
)
    requires
        0 <= c2 < pre.items@.len(),
        pre.items@[c2] is SelectInput,
        !pre.items@[c2].popup_value().shown,
        ev.is_press(),
        ev.key_code() == KeyCode::Char(ch),
        Form::dispatch_step(pre, ev, c2, post, r),
    ensures
        post.items@[c2].popup_value().shown,
        post.items@[c2].popup_value().search@ == seq![ch],
{
    let w = pre.items@[c2];
    let p0 = w.popup_value();
    let (sel, midp) = choose|sel: Option<String>, midp: FilterSelectPopup|
        #[trigger] FilterSelectPopup::step(p0, midp, ev, sel) && Form::dispatch_select(
            pre,
            ev,
            c2,
            post,
            midp,
            sel,
        );
    assert(midp == p0);
}

/// Committing the highlighted candidate of an open select popup closes the
/// popup and sets the field text to exactly that candidate.
pub proof fn lemma_select_commits(pre: Form, ev: Event, c2: int, post: Form, r: Option<usize>)
    requires
        0 <= c2 < pre.items@.len(),
        pre.items@[c2] is SelectInput,
        pre.items@[c2].popup_value().shown,
        ev.is_press(),
        ev.key_code() == KeyCode::Enter,
        (pre.items@[c2].popup_value().cursor as int) < filtered_spec(
            pre.items@[c2].popup_value().items@,
            pre.items@[c2].popup_value().search@,
        ).len(),
        Form::dispatch_step(pre, ev, c2, post, r),
    ensures
        !post.items@[c2].popup_value().shown,
        post.items@[c2].text_value() == filtered_spec(
            pre.items@[c2].popup_value().items@,
            pre.items@[c2].popup_value().search@,
        )[pre.items@[c2].popup_value().cursor as int],
{
    let w = pre.items@[c2];
    let p0 = w.popup_value();
    let (sel, midp) = choose|sel: Option<String>, midp: FilterSelectPopup|
        #[trigger] FilterSelectPopup::step(p0, midp, ev, sel) && Form::dispatch_select(
            pre,
            ev,
            c2,
            post,
            midp,
            sel,
        );
    assert(!midp.shown);
}

} // verus!
