use termlog::{EditAction, KeyInput, LineEditor, UI};

#[test]
fn key_probe_without_pending_input_is_no() {
    assert!(!UI::key('q', None));
}

#[test]
fn key_probe_matching_char_is_yes() {
    assert!(UI::key('q', Some(KeyInput::Char('q'))));
}

#[test]
fn key_probe_other_events_are_no() {
    assert!(!UI::key('q', Some(KeyInput::Char('w'))));
    assert!(!UI::key('q', Some(KeyInput::Enter)));
    assert!(!UI::key('q', Some(KeyInput::Backspace)));
    assert!(!UI::key('q', Some(KeyInput::Other)));
}

#[test]
fn editor_types_and_submits() {
    let mut ed = LineEditor::new();
    assert_eq!(ed.step(KeyInput::Char('h')), EditAction::Echo);
    assert_eq!(ed.step(KeyInput::Char('i')), EditAction::Echo);
    assert_eq!(ed.text(), "hi");
    assert_eq!(ed.step(KeyInput::Enter), EditAction::Submit("hi".to_string()));
    assert_eq!(ed.text(), "");
}

#[test]
fn editor_backspace_removes_last_char() {
    let mut ed = LineEditor::new();
    ed.step(KeyInput::Char('a'));
    ed.step(KeyInput::Char('é'));
    assert_eq!(ed.step(KeyInput::Backspace), EditAction::Echo);
    assert_eq!(ed.text(), "a");
}

#[test]
fn editor_backspace_on_empty_is_harmless() {
    let mut ed = LineEditor::new();
    assert_eq!(ed.step(KeyInput::Backspace), EditAction::Echo);
    assert_eq!(ed.text(), "");
    assert_eq!(ed.step(KeyInput::Enter), EditAction::Submit(String::new()));
}

#[test]
fn editor_ignores_other_keys() {
    let mut ed = LineEditor::new();
    ed.step(KeyInput::Char('x'));
    assert_eq!(ed.step(KeyInput::Other), EditAction::Ignore);
    assert_eq!(ed.text(), "x");
}
