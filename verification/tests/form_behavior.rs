use tui_forms::events::{Event, KeyCode, KeyEvent, KeyEventKind};
use tui_forms::form::Form;
use tui_forms::popup::FilterSelectPopup;
use tui_forms::widget::FormWidget;

fn press(code: KeyCode) -> Event {
    Event::Input(KeyEvent { code, kind: KeyEventKind::Press, no_modifiers: true })
}

fn input_box(label: &'static str, text: &str) -> FormWidget {
    FormWidget::InputBox {
        label,
        text: text.to_string(),
        empty_text: None,
        currency: None,
    }
}

fn send_form() -> Form {
    Form::init(vec![
        FormWidget::Heading("Send"),
        input_box("To", ""),
        input_box("Amount", ""),
        FormWidget::Button { label: "Confirm" },
    ])
}

#[test]
fn scenario_a_send_form_navigation() {
    let mut form = send_form();
    assert_eq!(form.cursor, 1);
    form.handle_event(&press(KeyCode::Down));
    assert_eq!(form.cursor, 2);
    form.handle_event(&press(KeyCode::Down));
    assert_eq!(form.cursor, 3);
    form.handle_event(&press(KeyCode::Down));
    assert_eq!(form.cursor, 1);
}

#[test]
fn scenario_b_hidden_field_is_skipped() {
    let mut form = send_form();
    form.hide_item(2usize);
    assert_eq!(form.cursor, 1);
    form.advance_cursor();
    assert_eq!(form.cursor, 3);
}

#[test]
fn scenario_c_select_popup_reopen_and_commit() {
    let candidates = vec!["USD".to_string(), "EUR".to_string(), "GBP".to_string()];
    let mut form = Form::init(vec![FormWidget::SelectInput {
        label: "Currency",
        text: "USD".to_string(),
        empty_text: None,
        popup: FilterSelectPopup::new(candidates),
    }]);
    assert!(!form.is_some_popup_open());
    form.handle_event(&press(KeyCode::Char('E')));
    assert!(form.is_some_popup_open());
    form.handle_event(&press(KeyCode::Enter));
    assert!(!form.is_some_popup_open());
    assert_eq!(form.get_text(0usize).as_str(), "EUR");
}

#[test]
fn cycle_closure_returns_to_start() {
    let mut form = send_form();
    // Three visible interactive fields: advancing three times closes the
    // cycle.
    assert_eq!(form.cursor, 1);
    form.advance_cursor();
    form.advance_cursor();
    form.advance_cursor();
    assert_eq!(form.cursor, 1);
}

#[test]
fn advance_then_retreat_restores_cursor() {
    let mut form = send_form();
    assert_eq!(form.cursor, 1);
    form.advance_cursor();
    form.retreat_cursor();
    assert_eq!(form.cursor, 1);
    form.retreat_cursor();
    form.advance_cursor();
    assert_eq!(form.cursor, 1);
}

#[test]
fn single_target_self_loop() {
    let mut form = send_form();
    form.hide_item(2usize);
    form.hide_item(3usize);
    assert_eq!(form.cursor, 1);
    form.advance_cursor();
    assert_eq!(form.cursor, 1);
    form.retreat_cursor();
    assert_eq!(form.cursor, 1);
}

#[test]
fn no_target_left_keeps_cursor() {
    let mut form = send_form();
    form.hide_item(1usize);
    form.hide_item(2usize);
    form.hide_item(3usize);
    form.advance_cursor();
    assert_eq!(form.cursor, 1);
    form.retreat_cursor();
    assert_eq!(form.cursor, 1);
}

#[test]
fn visible_count_is_len_minus_hidden() {
    let mut form = send_form();
    assert_eq!(form.visible_count(), 4);
    assert_eq!(form.hidden_count(), 0);
    form.hide_item(2usize);
    assert_eq!(form.visible_count(), 3);
    assert_eq!(form.hidden_count(), 1);
    // Hiding the same field again does not count twice.
    form.hide_item(2usize);
    assert_eq!(form.visible_count(), 3);
    form.hide_item(0usize);
    assert_eq!(form.visible_count(), 2);
    form.show_item(2usize);
    assert_eq!(form.visible_count(), 3);
    assert_eq!(form.hidden_count(), 1);
}

#[test]
fn boolean_toggle_parity() {
    let mut form = Form::init(vec![FormWidget::BooleanInput { label: "Dark mode", value: false }]);
    assert!(!form.get_boolean(0usize));
    form.handle_event(&press(KeyCode::Char('x')));
    assert!(form.get_boolean(0usize));
    form.handle_event(&press(KeyCode::Left));
    assert!(!form.get_boolean(0usize));
    form.handle_event(&press(KeyCode::Backspace));
    form.handle_event(&press(KeyCode::Right));
    assert!(!form.get_boolean(0usize));
    // The edit cursor tracks the textual length of the new value.
    form.handle_event(&press(KeyCode::Char('x')));
    assert!(form.get_boolean(0usize));
    assert_eq!(form.text_cursor, 4);
}

#[test]
fn typing_edits_the_focused_input() {
    let mut form = send_form();
    form.handle_event(&press(KeyCode::Char('a')));
    form.handle_event(&press(KeyCode::Char('b')));
    form.handle_event(&press(KeyCode::Char('c')));
    assert_eq!(form.get_text(1usize).as_str(), "abc");
    assert_eq!(form.text_cursor, 3);
    form.handle_event(&press(KeyCode::Backspace));
    assert_eq!(form.get_text(1usize).as_str(), "ab");
    form.handle_event(&press(KeyCode::Left));
    form.handle_event(&press(KeyCode::Char('x')));
    assert_eq!(form.get_text(1usize).as_str(), "axb");
    assert_eq!(form.text_cursor, 2);
    form.handle_event(&press(KeyCode::Delete));
    assert_eq!(form.get_text(1usize).as_str(), "ax");
}

#[test]
fn enter_on_button_reports_activation() {
    let mut form = send_form();
    form.cursor = 3;
    form.update_text_cursor();
    let activated = form.handle_event(&press(KeyCode::Enter));
    assert_eq!(activated, Some(3));
    // Enter on a non-button advances instead; it lands on the button and
    // activates it in the same key press.
    let mut form2 = send_form();
    assert_eq!(form2.handle_event(&press(KeyCode::Enter)), None);
    assert_eq!(form2.cursor, 2);
    assert_eq!(form2.handle_event(&press(KeyCode::Enter)), Some(3));
}

#[test]
fn release_events_are_ignored() {
    let mut form = send_form();
    let release = Event::Input(KeyEvent {
        code: KeyCode::Down,
        kind: KeyEventKind::Release,
        no_modifiers: true,
    });
    form.handle_event(&release);
    assert_eq!(form.cursor, 1);
    let background = Event::EthPriceUpdate("1234.5".to_string());
    form.handle_event(&background);
    assert_eq!(form.cursor, 1);
}

#[test]
fn getters_and_setters_roundtrip() {
    let mut form = send_form();
    *form.get_text_mut(2usize) = "42".to_string();
    assert_eq!(form.get_text(2usize).as_str(), "42");
    let mut bool_form = Form::init(vec![FormWidget::BooleanInput { label: "On", value: false }]);
    *bool_form.get_boolean_mut(0usize) = true;
    assert!(bool_form.get_boolean(0usize));
    *form.get_currency_mut(2usize) = Some("ETH".to_string());
    assert!(form.is_focused(1usize));
    assert!(!form.is_focused(2usize));
    assert!(!form.is_button_focused());
    form.cursor = 3;
    assert!(form.is_button_focused());
}

#[test]
fn layout_stacks_visible_fields() {
    let mut form = send_form();
    let rows = form.layout(20);
    // Heading: 2 rows; each input box: 3 rows; button: 4 rows.
    assert_eq!(rows, vec![(0, 0, 2), (1, 2, 3), (2, 5, 3), (3, 8, 4)]);
    form.hide_item(2usize);
    let rows = form.layout(20);
    assert_eq!(rows, vec![(0, 0, 2), (1, 2, 3), (3, 5, 4)]);
}

#[test]
fn layout_wraps_long_text_and_skips_empty_status() {
    let form = Form::init(vec![
        input_box("Memo", "0123456789012345678901234567890123456789"),
        FormWidget::ErrorText(String::new()),
        FormWidget::DisplayText("0123456789".to_string()),
    ]);
    let rows = form.layout(12);
    // 40 characters at 10 usable columns: four text lines plus the border
    // rows. The empty error line occupies nothing; the ten-character status
    // line wraps to one line plus its two surrounding rows.
    assert_eq!(rows, vec![(0, 0, 6), (1, 6, 0), (2, 6, 3)]);
}
