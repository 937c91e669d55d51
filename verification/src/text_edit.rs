//! The generic text-editing handler shared by editable text fields.
//!
//! It interprets one key press against a text and an intra-field edit
//! cursor counted in characters: printable characters insert at the cursor,
//! backspace deletes before it, delete removes under it, and left/right move
//! it. Editing is a total operation with no failure path.

use vstd::prelude::*;
use crate::events::{Event, KeyCode};
use crate::popup::string_push;

verus! {

/// The text and cursor after one key press. A cursor beyond the end of the
/// text (possible after the caller replaced the text wholesale) is first
/// clamped to the end. The cursor saturates at the machine limit.
pub open spec fn edit_step(text: Seq<char>, pos: int, code: KeyCode) -> (Seq<char>, int) {
    let n = text.len() as int;
    let p = if pos <= n {
        pos
    } else {
        n
    };
    match code {
        KeyCode::Char(c) => (
            text.subrange(0, p) + seq![c] + text.subrange(p, n),
            if p + 1 <= usize::MAX {
                p + 1
            } else {
                p
            },
        ),
        KeyCode::Backspace => if p > 0 {
            (text.subrange(0, p - 1) + text.subrange(p, n), p - 1)
        } else {
            (text, p)
        },
        KeyCode::Delete => if p < n {
            (text.subrange(0, p) + text.subrange(p + 1, n), p)
        } else {
            (text, p)
        },
        KeyCode::Left => (text, if p > 0 {
            p - 1
        } else {
            0
        }),
        KeyCode::Right => (text, if p < n {
            p + 1
        } else {
            p
        }),
        _ => (text, pos),
    }
}

/// Applies one input event to a text and its edit cursor, per [`edit_step`].
/// Events that are not key presses leave both untouched.
pub fn handle_text_edit(text: &mut String, pos: &mut usize, event: &Event)
    ensures
        ({
            let r = edit_step(old(text)@, *old(pos) as int, event.key_code());
            if event.is_press() {
                final(text)@ == r.0 && *final(pos) == r.1
            } else {
                final(text)@ == old(text)@ && *final(pos) == *old(pos)
            }
        }),
{
    if !event.is_char_pressed(None) {
        return;
    }
    let code = match event {
        Event::Input(k) => k.code,
        _ => KeyCode::Other,
    };
    let n = text.as_str().unicode_len();
    let p: usize = if *pos <= n {
        *pos
    } else {
        n
    };
    match code {
        KeyCode::Char(c) => {
            let rest = text.as_str().substring_char(p, n).to_owned();
            let mut s = text.as_str().substring_char(0, p).to_owned();
            string_push(&mut s, c);
            s.append(rest.as_str());
            *text = s;
            if p < usize::MAX {
                *pos = p + 1;
            } else {
                *pos = p;
            }
            proof {
                let r = edit_step(old(text)@, *old(pos) as int, event.key_code());
                assert(text@ =~= r.0);
            }
        },
        KeyCode::Backspace => {
            if p > 0 {
                let rest = text.as_str().substring_char(p, n).to_owned();
                let mut s = text.as_str().substring_char(0, p - 1).to_owned();
                s.append(rest.as_str());
                *text = s;
                *pos = p - 1;
                proof {
                    let r = edit_step(old(text)@, *old(pos) as int, event.key_code());
                    assert(text@ =~= r.0);
                }
            } else {
                *pos = p;
            }
        },
        KeyCode::Delete => {
            if p < n {
                let rest = text.as_str().substring_char(p + 1, n).to_owned();
                let mut s = text.as_str().substring_char(0, p).to_owned();
                s.append(rest.as_str());
                *text = s;
                *pos = p;
                proof {
                    let r = edit_step(old(text)@, *old(pos) as int, event.key_code());
                    assert(text@ =~= r.0);
                }
            } else {
                *pos = p;
            }
        },
        KeyCode::Left => {
            *pos = if p > 0 {
                p - 1
            } else {
                0
            };
        },
        KeyCode::Right => {
            *pos = if p < n {
                p + 1
            } else {
                p
            };
        },
        _ => {},
    }
}

} // verus!
