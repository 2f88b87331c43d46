use termlog::{CAPACITY, UI};

fn texts(ui: &UI) -> Vec<String> {
    ui.messages()
}

#[test]
fn new_log_is_empty() {
    let ui = UI::new();
    assert_eq!(ui.len(), 0);
    assert!(ui.newest().is_none());
    assert_eq!(ui.info(), "");
}

#[test]
fn three_appends_read_newest_first() {
    let mut ui = UI::new();
    ui.push("a".to_string());
    ui.push("b".to_string());
    ui.push("c".to_string());
    assert_eq!(texts(&ui), vec!["c", "b", "a"]);
}

#[test]
fn hundred_fifty_appends_keep_the_newest_hundred() {
    let mut ui = UI::new();
    for i in 1..=150 {
        ui.push(i.to_string());
    }
    let expected: Vec<String> = (51..=150).rev().map(|i| i.to_string()).collect();
    assert_eq!(texts(&ui), expected);
    assert_eq!(ui.len(), 100);
}

#[test]
fn length_never_exceeds_capacity() {
    let mut ui = UI::new();
    for i in 0..(CAPACITY + 5) {
        ui.push(format!("m{}", i));
        assert!(ui.len() <= CAPACITY);
        assert_eq!(ui.len(), (i + 1).min(CAPACITY));
    }
    assert_eq!(ui.get(0).map(|s| s.as_str()), Some("m104"));
    assert_eq!(ui.get(CAPACITY - 1).map(|s| s.as_str()), Some("m5"));
    assert!(ui.get(CAPACITY).is_none());
}

#[test]
fn exactly_capacity_evicts_nothing() {
    let mut ui = UI::new();
    for i in 0..CAPACITY {
        ui.push(i.to_string());
    }
    assert_eq!(ui.len(), CAPACITY);
    assert_eq!(ui.get(CAPACITY - 1).map(|s| s.as_str()), Some("0"));
}

#[test]
fn push_then_newest_round_trips() {
    let mut ui = UI::new();
    ui.push("old".to_string());
    let text = "  tabs\tand \u{1b}[31m escapes é ".to_string();
    ui.push(text.clone());
    assert_eq!(ui.newest(), Some(&text));
}

#[test]
fn equal_messages_are_kept_apart() {
    let mut ui = UI::new();
    ui.push("same".to_string());
    ui.push("same".to_string());
    assert_eq!(texts(&ui), vec!["same", "same"]);
}

#[test]
fn set_info_twice_is_set_info_once() {
    let mut once = UI::new();
    once.push("x".to_string());
    let mut twice = once.clone();
    once.set_info("ready".to_string());
    twice.set_info("ready".to_string());
    twice.set_info("ready".to_string());
    assert_eq!(once.info(), twice.info());
    assert_eq!(twice.info(), "ready");
    assert_eq!(texts(&once), texts(&twice));
}

#[test]
fn set_info_replaces_and_leaves_messages() {
    let mut ui = UI::new();
    ui.push("m".to_string());
    ui.set_info("first".to_string());
    ui.set_info("second".to_string());
    assert_eq!(ui.info(), "second");
    assert_eq!(texts(&ui), vec!["m"]);
}
