use tui_forms::button::Button;
use tui_forms::events::{Event, KeyCode, KeyEvent, KeyEventKind};
use tui_forms::popup::{matches_query, FilterSelectPopup};
use tui_forms::sidebar::{Sidebar, SidebarPage};
use tui_forms::text_popup::TextPopup;
use tui_forms::traits::HandleResult;
use tui_forms::widget::FormWidget;

fn press(code: KeyCode) -> Event {
    Event::Input(KeyEvent { code, kind: KeyEventKind::Press, no_modifiers: true })
}

#[test]
fn substring_matching() {
    assert!(matches_query("EUR", "E"));
    assert!(matches_query("EUR", "UR"));
    assert!(matches_query("EUR", ""));
    assert!(!matches_query("USD", "E"));
    assert!(!matches_query("E", "EUR"));
    assert!(matches_query("", ""));
}

#[test]
fn popup_filters_and_commits() {
    let mut popup = FilterSelectPopup::new(vec![
        "USD".to_string(),
        "EUR".to_string(),
        "GBP".to_string(),
    ]);
    assert!(!popup.is_open());
    popup.open();
    assert!(popup.is_open());
    assert_eq!(popup.filtered(), vec!["USD", "EUR", "GBP"]);
    assert_eq!(popup.handle_event(&press(KeyCode::Char('U'))), None);
    assert_eq!(popup.filtered(), vec!["USD", "EUR"]);
    assert_eq!(popup.handle_event(&press(KeyCode::Down)), None);
    let sel = popup.handle_event(&press(KeyCode::Enter));
    assert_eq!(sel, Some("EUR".to_string()));
    assert!(!popup.is_open());
}

#[test]
fn popup_backspace_escape_and_clamping() {
    let mut popup = FilterSelectPopup::new(vec!["alpha".to_string(), "beta".to_string()]);
    popup.open();
    popup.handle_event(&press(KeyCode::Char('a')));
    popup.handle_event(&press(KeyCode::Char('l')));
    assert_eq!(popup.filtered(), vec!["alpha"]);
    popup.handle_event(&press(KeyCode::Backspace));
    assert_eq!(popup.filtered(), vec!["alpha", "beta"]);
    // Highlight stops at the last filtered candidate and at zero.
    popup.handle_event(&press(KeyCode::Down));
    popup.handle_event(&press(KeyCode::Down));
    popup.handle_event(&press(KeyCode::Down));
    assert_eq!(popup.cursor, 1);
    popup.handle_event(&press(KeyCode::Up));
    popup.handle_event(&press(KeyCode::Up));
    assert_eq!(popup.cursor, 0);
    popup.handle_event(&press(KeyCode::Esc));
    assert!(!popup.is_open());
    // A closed popup ignores events entirely.
    assert_eq!(popup.handle_event(&press(KeyCode::Enter)), None);
    assert!(!popup.is_open());
}

#[test]
fn scenario_d_merge_discipline() {
    let child_a: HandleResult<&'static str> = HandleResult {
        page_pops: 0,
        page_inserts: vec!["assets"],
        esc_ignores: 0,
        reload: false,
    };
    let child_b: HandleResult<&'static str> = HandleResult {
        page_pops: 1,
        page_inserts: vec!["trade"],
        esc_ignores: 1,
        reload: true,
    };
    let mut merged: HandleResult<&'static str> = HandleResult::default();
    merged.merge(child_a);
    merged.merge(child_b);
    assert!(merged.reload);
    assert_eq!(merged.page_pops, 1);
    assert_eq!(merged.esc_ignores, 1);
    assert_eq!(merged.page_inserts, vec!["assets", "trade"]);
}

#[test]
fn text_popup_escape_lifecycle() {
    let mut popup = TextPopup::new("Details");
    assert!(!popup.is_shown());
    popup.set_text("something went wrong".to_string());
    assert!(popup.is_shown());
    // While shown, the popup claims one pending escape press so that the
    // page stack does not navigate back.
    let r: HandleResult<u8> = popup.handle_event(&press(KeyCode::Char('q')));
    assert_eq!(r.esc_ignores, 1);
    assert!(!r.reload);
    assert_eq!(r.page_pops, 0);
    let r: HandleResult<u8> = popup.handle_event(&press(KeyCode::Esc));
    assert!(!popup.is_shown());
    assert_eq!(r.esc_ignores, 0);
    popup.set_text("again".to_string());
    popup.clear();
    assert!(!popup.is_shown());
}

#[test]
fn sidebar_decisions() {
    let mut sidebar = Sidebar::new();
    let (r, toggle) = sidebar.handle_event(&press(KeyCode::Enter), false);
    assert_eq!(r.page_inserts, vec![SidebarPage::Trade]);
    assert!(!toggle);
    assert!(!r.reload);

    let mut sidebar = Sidebar::new();
    sidebar.handle_event(&press(KeyCode::Down), false);
    let (r, toggle) = sidebar.handle_event(&press(KeyCode::Enter), false);
    assert!(toggle);
    assert!(r.reload);
    assert!(r.page_inserts.is_empty());

    let mut sidebar = Sidebar::new();
    sidebar.handle_event(&press(KeyCode::Down), false);
    sidebar.handle_event(&press(KeyCode::Down), false);
    let (r, _) = sidebar.handle_event(&press(KeyCode::Enter), false);
    assert_eq!(r.page_inserts, vec![SidebarPage::Assets]);

    // In testnet mode the portfolio entry does not exist: the cursor clamps
    // to the toggle entry.
    let mut sidebar = Sidebar::new();
    sidebar.handle_event(&press(KeyCode::Down), true);
    sidebar.handle_event(&press(KeyCode::Down), true);
    let (r, toggle) = sidebar.handle_event(&press(KeyCode::Enter), true);
    assert!(toggle);
    assert!(r.reload);
    assert_eq!(sidebar.cursor.current, 1);
}

#[test]
fn widget_labels_and_max_cursor() {
    let heading = FormWidget::Heading("Send");
    assert_eq!(heading.label(), None);
    assert_eq!(heading.max_cursor(), 0);
    let input = FormWidget::InputBox {
        label: "To",
        text: "abcd".to_string(),
        empty_text: None,
        currency: None,
    };
    assert_eq!(input.label(), Some("To"));
    assert_eq!(input.max_cursor(), 4);
    let on = FormWidget::BooleanInput { label: "On", value: true };
    assert_eq!(on.max_cursor(), 4);
    let off = FormWidget::BooleanInput { label: "Off", value: false };
    assert_eq!(off.max_cursor(), 5);
    let button = FormWidget::Button { label: "Confirm" };
    assert_eq!(button.label(), Some("Confirm"));
    assert_eq!(button.max_cursor(), 0);
}

#[test]
fn button_footprint() {
    let button = Button { focus: false, label: "OK" };
    assert_eq!(button.size(), (4, 3));
}

#[test]
fn event_queries() {
    let ev = press(KeyCode::Char('g'));
    assert!(ev.is_char_pressed(Some('g')));
    assert!(!ev.is_char_pressed(Some('h')));
    assert!(ev.is_char_pressed(None));
    assert!(ev.is_key_pressed(KeyCode::Char('g')));
    assert!(!ev.is_key_pressed(KeyCode::Enter));
    let modified = Event::Input(KeyEvent {
        code: KeyCode::Enter,
        kind: KeyEventKind::Press,
        no_modifiers: false,
    });
    assert!(!modified.is_key_pressed(KeyCode::Enter));
    assert!(modified.is_char_pressed(None));
    let release = Event::Input(KeyEvent {
        code: KeyCode::Enter,
        kind: KeyEventKind::Release,
        no_modifiers: true,
    });
    assert!(!release.is_key_pressed(KeyCode::Enter));
    assert!(!Event::HashRateError("nope".to_string()).is_char_pressed(None));
}
