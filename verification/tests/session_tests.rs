use termnews::config::default_config;
use termnews::item::NewsItem;
use termnews::session::{SessionState, ViewMode};

fn item(title: &str, url: Option<&str>) -> NewsItem {
    NewsItem {
        title: title.to_string(),
        source: "src".to_string(),
        tag: Some("RSS".to_string()),
        url: url.map(|u| u.to_string()),
    }
}

fn state_with_items(titles: &[&str]) -> SessionState {
    let mut s = SessionState::new(default_config());
    let items: Vec<NewsItem> = titles.iter().map(|t| item(t, Some("http://x/1"))).collect();
    s.commit_refresh(0, items);
    s
}

#[test]
fn new_state_starts_loading_on_first_tab() {
    let s = SessionState::new(default_config());
    assert!(s.is_loading);
    assert_eq!(s.current_tab, 0);
    assert!(s.items.is_empty());
    assert_eq!(s.selected, None);
    assert_eq!(s.view_mode, ViewMode::List);
    assert_eq!(s.scroll, 0);
    assert_eq!(s.status_message, None);
}

#[test]
fn selection_wraps_forward() {
    // Items [a, b, c] with the selection on the last: next() wraps to 0.
    let mut s = state_with_items(&["a", "b", "c"]);
    assert_eq!(s.selected, Some(0));
    s.next();
    s.next();
    assert_eq!(s.selected, Some(2));
    s.next();
    assert_eq!(s.selected, Some(0));
}

#[test]
fn selection_wraps_backward() {
    // Selection on 0: previous() wraps to the last index, 2.
    let mut s = state_with_items(&["a", "b", "c"]);
    assert_eq!(s.selected, Some(0));
    s.previous();
    assert_eq!(s.selected, Some(2));
}

#[test]
fn next_on_empty_list_changes_nothing() {
    let mut s = SessionState::new(default_config());
    s.commit_refresh(0, vec![]);
    s.next();
    assert_eq!(s.selected, None);
    s.previous();
    assert_eq!(s.selected, None);
}

#[test]
fn switch_to_same_tab_is_noop() {
    // Switching to the already-current tab keeps items and the loading flag.
    let mut s = state_with_items(&["a", "b"]);
    assert!(!s.is_loading);
    let refresh = s.switch_tab(0);
    assert!(!refresh);
    assert_eq!(s.items.len(), 2);
    assert!(!s.is_loading);
}

#[test]
fn switch_to_other_tab_clears_and_loads() {
    let mut s = state_with_items(&["a", "b"]);
    s.note_status("hello".to_string());
    let refresh = s.switch_tab(2);
    assert!(refresh);
    assert_eq!(s.current_tab, 2);
    assert!(s.items.is_empty());
    assert_eq!(s.selected, None);
    assert!(s.is_loading);
    assert_eq!(s.status_message, None);
}

#[test]
fn stale_refresh_result_is_discarded() {
    // A refresh launched for tab 1 completes only after the user has moved
    // on to tab 2: its result must not touch items or the loading flag.
    let mut s = SessionState::new(default_config());
    assert!(s.switch_tab(1));
    assert!(s.switch_tab(2));
    let stale = vec![item("old", None)];
    s.commit_refresh(1, stale);
    assert!(s.items.is_empty());
    assert!(s.is_loading);
    assert_eq!(s.current_tab, 2);
}

#[test]
fn fresh_refresh_result_is_committed() {
    let mut s = SessionState::new(default_config());
    assert!(s.switch_tab(1));
    s.commit_refresh(1, vec![item("n", None)]);
    assert_eq!(s.items.len(), 1);
    assert!(!s.is_loading);
    assert_eq!(s.selected, Some(0));
}

#[test]
fn commit_of_empty_result_clears_loading_without_selection() {
    let mut s = SessionState::new(default_config());
    s.commit_refresh(0, vec![]);
    assert!(!s.is_loading);
    assert_eq!(s.selected, None);
}

#[test]
fn manual_refresh_notes_status_and_keeps_tab() {
    let mut s = state_with_items(&["a"]);
    let tab = s.begin_manual_refresh();
    assert_eq!(tab, 0);
    assert_eq!(s.status_message.as_deref(), Some("Refreshing..."));
    assert_eq!(s.items.len(), 1);
}

#[test]
fn article_load_flow() {
    let mut s = SessionState::new(default_config());
    s.commit_refresh(0, vec![item("a", Some("http://x/article"))]);
    let url = s.begin_article_load();
    assert_eq!(url.as_deref(), Some("http://x/article"));
    assert_eq!(s.view_mode, ViewMode::Reading);
    assert!(s.is_loading);
    assert_eq!(s.article_text, "Loading article...");
    assert_eq!(s.scroll, 0);

    s.article_loaded(Some("body text".to_string()));
    assert!(!s.is_loading);
    assert_eq!(s.article_text, "body text");

    s.return_to_list();
    assert_eq!(s.view_mode, ViewMode::List);
}

#[test]
fn article_load_without_url_changes_nothing() {
    let mut s = SessionState::new(default_config());
    s.commit_refresh(0, vec![item("a", None)]);
    let url = s.begin_article_load();
    assert_eq!(url, None);
    assert_eq!(s.view_mode, ViewMode::List);
    assert!(!s.is_loading);
}

#[test]
fn failed_article_load_shows_fixed_message() {
    let mut s = SessionState::new(default_config());
    s.commit_refresh(0, vec![item("a", Some("http://x/1"))]);
    s.begin_article_load();
    s.article_loaded(None);
    assert_eq!(s.article_text, "Failed to load article.");
    assert!(!s.is_loading);
}

#[test]
fn scroll_saturates_at_zero() {
    let mut s = SessionState::new(default_config());
    s.scroll_up();
    assert_eq!(s.scroll, 0);
    s.scroll_down();
    s.scroll_down();
    assert_eq!(s.scroll, 2);
    s.scroll_up();
    assert_eq!(s.scroll, 1);
}
