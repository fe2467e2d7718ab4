use clipboard_manager::monitor::{ClipboardMonitor, MonitorAction};

fn stored(a: &MonitorAction) -> Option<String> {
    match a {
        MonitorAction::Store(s) => Some(s.clone()),
        MonitorAction::Wait => None,
    }
}

#[test]
fn new_text_is_stored_once() {
    let mut m = ClipboardMonitor::new();
    assert_eq!(stored(&m.observe(Some("abc".to_string()))), Some("abc".to_string()));
    assert_eq!(stored(&m.observe(Some("abc".to_string()))), None);
    assert_eq!(stored(&m.observe(Some("abc".to_string()))), None);
}

#[test]
fn failed_read_changes_nothing() {
    let mut m = ClipboardMonitor::new();
    m.observe(Some("x".to_string()));
    assert_eq!(stored(&m.observe(None)), None);
    assert_eq!(stored(&m.observe(Some("x".to_string()))), None);
}

#[test]
fn empty_clipboard_at_start_is_not_stored() {
    let mut m = ClipboardMonitor::new();
    assert_eq!(stored(&m.observe(Some(String::new()))), None);
}

#[test]
fn alternating_texts_are_all_stored() {
    let mut m = ClipboardMonitor::new();
    let reads = ["a", "b", "b", "a", "a", "c"];
    let got: Vec<String> = reads
        .iter()
        .filter_map(|r| stored(&m.observe(Some(r.to_string()))))
        .collect();
    assert_eq!(got, vec!["a", "b", "a", "c"]);
}
