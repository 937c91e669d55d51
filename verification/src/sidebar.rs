//! The sidebar: a small selection list whose entries open pages or toggle
//! testnet mode. Only the decisions live here; persisting the toggle and
//! constructing the real pages is the caller's work.

use vstd::prelude::*;
use crate::events::{Event, KeyCode};
use crate::traits::HandleResult;

verus! {

/// A vertical selection cursor over a list of `total` entries, clamped at
/// both ends.
pub struct Cursor {
    pub current: usize,
}

impl Cursor {
    /// Where the cursor lands after one event over `total` entries: it is
    /// first clamped below `total`, then an up/down press moves it one
    /// entry, stopping at the ends.
    pub open spec fn spec_step(cur: int, total: int, ev: Event) -> int {
        if total <= 0 {
            0
        } else {
            let base = if cur < total {
                cur
            } else {
                total - 1
            };
            if ev.is_press() {
                match ev.key_code() {
                    KeyCode::Up => if base > 0 {
                        base - 1
                    } else {
                        0
                    },
                    KeyCode::Down => if base + 1 < total {
                        base + 1
                    } else {
                        base
                    },
                    _ => base,
                }
            } else {
                base
            }
        }
    }

    pub fn new() -> (r: Self)
        ensures
            r.current == 0,
    {
        Cursor { current: 0 }
    }

    /// Applies one event, per [`Cursor::spec_step`].
    pub fn handle(&mut self, event: &Event, total: usize)
        ensures
            final(self).current as int == Self::spec_step(old(self).current as int, total as int, *event),
    {
        if total == 0 {
            self.current = 0;
            return;
        }
        let base = if self.current < total {
            self.current
        } else {
            total - 1
        };
        self.current = base;
        if !event.is_char_pressed(None) {
            return;
        }
        match event {
            Event::Input(k) => {
                match k.code {
                    KeyCode::Up => {
                        if base > 0 {
                            self.current = base - 1;
                        }
                    },
                    KeyCode::Down => {
                        if base + 1 < total {
                            self.current = base + 1;
                        }
                    },
                    _ => {},
                }
            },
            _ => {},
        }
    }
}

impl Default for Cursor {
    fn default() -> (r: Self)
        ensures
            r.current == 0,
    {
        Cursor { current: 0 }
    }
}

/// The pages the sidebar can ask the stack to open.
#[derive(Clone, Copy, Debug, PartialEq, Eq, Structural)]
pub enum SidebarPage {
    Trade,
    Assets,
}

/// The sidebar widget: its entries are the price line, the testnet-mode
/// toggle and, outside testnet mode, the portfolio line.
pub struct Sidebar {
    pub cursor: Cursor,
}

impl Sidebar {
    /// The number of sidebar entries in the given mode.
    pub open spec fn spec_total(testnet_mode: bool) -> int {
        if testnet_mode {
            2
        } else {
            3
        }
    }

    pub fn new() -> (r: Self)
        ensures
            r.cursor.current == 0,
    {
        Sidebar { cursor: Cursor::new() }
    }

    /// Moves the selection cursor, then interprets enter on the selected
    /// entry: the first entry opens the trade page, the second requests a
    /// testnet-mode toggle (reported in the second component of the result,
    /// with a reload of the owning page), the third opens the assets page.
    /// The caller persists the toggle and notifies the rest of the
    /// application.
    pub fn handle_event(&mut self, event: &Event, testnet_mode: bool) -> (r: (
        HandleResult<SidebarPage>,
        bool,
    ))
        ensures
            ({
                let total = Self::spec_total(testnet_mode);
                let cur = Cursor::spec_step(old(self).cursor.current as int, total, *event);
                let enter = event.is_press() && event.key_code() == KeyCode::Enter;
                &&& final(self).cursor.current as int == cur
                &&& r.0.page_pops == 0
                &&& r.0.esc_ignores == 0
                &&& r.0.page_inserts@ == if enter && cur == 0 {
                    seq![SidebarPage::Trade]
                } else if enter && cur == 2 {
                    seq![SidebarPage::Assets]
                } else {
                    Seq::<SidebarPage>::empty()
                }
                &&& r.0.reload == (enter && cur == 1)
                &&& r.1 == (enter && cur == 1)
            }),
    {
        let total: usize = if testnet_mode {
            2
        } else {
            3
        };
        self.cursor.handle(event, total);
        let mut result: HandleResult<SidebarPage> = HandleResult::new();
        let mut toggle = false;
        if event.is_char_pressed(None) && matches!(event, Event::Input(k) if matches!(k.code, KeyCode::Enter)) {
            if self.cursor.current == 0 {
                result.page_inserts.push(SidebarPage::Trade);
            } else if self.cursor.current == 1 {
                result.reload = true;
                toggle = true;
            } else if self.cursor.current == 2 {
                result.page_inserts.push(SidebarPage::Assets);
            }
        }
        (result, toggle)
    }
}

impl Default for Sidebar {
    fn default() -> (r: Self)
        ensures
            r.cursor.current == 0,
    {
        Sidebar { cursor: Cursor { current: 0 } }
    }
}

} // verus!
