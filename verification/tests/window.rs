use clipboard_manager::view::{HistoryView, UiAction, UiEvent, DARK_LABEL, LIGHT_LABEL};

fn entries(items: &[(i32, &str)]) -> Vec<(i32, String)> {
    items.iter().map(|(id, s)| (*id, s.to_string())).collect()
}

#[test]
fn window_starts_dark_and_empty() {
    let v = HistoryView::new();
    assert!(v.dark_mode);
    assert!(v.local_history.is_empty());
    assert!(v.filtered_history.is_empty());
    assert!(v.search_query.is_empty());
    assert_eq!(v.theme_label(), "🌙 Dark");
}

#[test]
fn theme_button_switches_and_switches_back() {
    let mut v = HistoryView::new();
    assert!(matches!(v.handle(UiEvent::ToggleTheme), UiAction::Nothing));
    assert!(!v.dark_mode);
    assert_eq!(v.theme_label(), LIGHT_LABEL);
    assert_eq!(v.theme_label(), "☀️ Light");
    v.handle(UiEvent::ToggleTheme);
    assert!(v.dark_mode);
    assert_eq!(v.theme_label(), DARK_LABEL);
}

#[test]
fn refresh_shows_matching_entries() {
    let mut v = HistoryView::new();
    v.search_query = "note".to_string();
    v.refresh(Some(entries(&[(3, "Note one"), (2, "other"), (1, "a note")])));
    assert_eq!(v.local_history, entries(&[(3, "Note one"), (2, "other"), (1, "a note")]));
    assert_eq!(v.filtered_history, entries(&[(3, "Note one"), (1, "a note")]));
}

#[test]
fn refresh_without_copy_changes_nothing() {
    let mut v = HistoryView::new();
    v.refresh(Some(entries(&[(1, "a")])));
    v.search_query = "zzz".to_string();
    v.refresh(None);
    assert_eq!(v.local_history, entries(&[(1, "a")]));
    assert_eq!(v.filtered_history, entries(&[(1, "a")]));
}

#[test]
fn clicks_ask_for_the_right_work() {
    let mut v = HistoryView::new();
    v.refresh(Some(entries(&[(7, "seven"), (6, "six")])));
    assert!(matches!(v.handle(UiEvent::Export), UiAction::ExportHistory));
    match v.handle(UiEvent::Copy(1)) {
        UiAction::CopyToClipboard(s) => assert_eq!(s, "six"),
        _ => panic!("expected a copy"),
    }
    match v.handle(UiEvent::Delete(0)) {
        UiAction::DeleteEntry(id) => assert_eq!(id, 7),
        _ => panic!("expected a deletion"),
    }
    assert_eq!(v.filtered_history, entries(&[(7, "seven"), (6, "six")]));
    assert!(v.dark_mode);
}
