use rustdash::config::Settings;
use rustdash::input::KeyCommand;
use rustdash::input::copied_status;
use rustdash::logs::LogEntry;
use rustdash::state::{metrics_band_height, ActivePanel, AppState};
use rustdash::time_range::TimeRange;

fn entry(msg: &str) -> LogEntry {
    LogEntry {
        timestamp: "t".to_string(),
        message: msg.to_string(),
        level: "INFO".to_string(),
        is_new: false,
    }
}

fn fetched(n: usize) -> Vec<LogEntry> {
    (0..n).map(|i| entry(&format!("line {}", i))).collect()
}

#[test]
fn default_state_is_empty_and_idle() {
    let s = AppState::default();
    assert!(s.logs.is_empty());
    assert!(s.all_logs.is_empty());
    assert_eq!(s.last_fetch, "Never");
    assert_eq!(s.status, "Initializing...");
    assert_eq!(s.prometheus_url, "");
    assert_eq!(s.loki_url, "");
    assert_eq!(s.selected_log_index, None);
    assert_eq!(s.log_scroll_offset, 0);
    assert_eq!(s.last_terminal_height, 50);
    assert_eq!(s.last_fetch_count, 0);
    assert!(!s.has_initial_fetch);
    assert_eq!(s.active_panel, ActivePanel::Idle);
    assert_eq!(s.metrics_scroll_offset, 0);
    assert_eq!(s.metrics_time_range, TimeRange::FiveMin);
    assert!(!s.metrics_loading);
    assert_eq!(s.expanded_log_index, None);
}

#[test]
fn default_settings_point_at_local_backends() {
    let s = Settings::default();
    assert_eq!(s.prometheus.base_url, "http://localhost:9090");
    assert_eq!(s.prometheus.timeout_seconds, 10);
    assert_eq!(s.loki.base_url, "http://localhost:3100");
    assert_eq!(s.loki.timeout_seconds, 10);
    assert_eq!(s.loki.log_limit, 100);
    assert_eq!(s.ui.refresh_interval_seconds, 5);
    assert_eq!(s.ui.log_display_count, 20);
}

#[test]
fn first_fetch_scrolls_to_the_bottom() {
    let mut s = AppState::default();
    s.last_terminal_height = 44; // viewport of 20 rows
    s.apply_fetched_logs(&fetched(100));
    assert!(s.has_initial_fetch);
    assert_eq!(s.last_fetch_count, 100);
    assert_eq!(s.status, "Connected - Initial: 100 logs");
    assert_eq!(s.log_scroll_offset, 80);
    assert_eq!(s.logs.len(), 20);
    assert_eq!(s.logs[19].message, "line 99");
    assert!(s.all_logs.iter().all(|e| !e.is_new));
}

#[test]
fn growth_without_selection_scrolls_to_show_new_entries() {
    let mut s = AppState::default();
    s.last_terminal_height = 44;
    s.apply_fetched_logs(&fetched(30));
    assert_eq!(s.log_scroll_offset, 10);
    s.apply_fetched_logs(&fetched(40));
    assert_eq!(s.status, "Connected - 10 new logs!");
    assert_eq!(s.log_scroll_offset, 20);
    assert_eq!(s.logs.len(), 20);
    // exactly the ten trailing entries carry the highlight
    for (i, e) in s.all_logs.iter().enumerate() {
        assert_eq!(e.is_new, i >= 30);
    }
}

#[test]
fn selection_survives_a_refresh_with_unchanged_window() {
    let mut s = AppState::default();
    s.last_terminal_height = 44;
    s.apply_fetched_logs(&fetched(50));
    s.selected_log_index = Some(10);
    s.log_scroll_offset = 10;
    s.update_visible_logs_with_height(44);
    s.apply_fetched_logs(&fetched(50));
    assert_eq!(s.selected_log_index, Some(10));
    assert_eq!(s.log_scroll_offset, 10);
    assert_eq!(s.status, "Connected");
}

#[test]
fn selection_is_clamped_when_the_log_set_shrinks() {
    let mut s = AppState::default();
    s.last_terminal_height = 44;
    s.apply_fetched_logs(&fetched(50));
    s.selected_log_index = Some(45);
    s.update_visible_logs_with_height(44);
    s.apply_fetched_logs(&fetched(20));
    assert_eq!(s.selected_log_index, Some(19));
}

#[test]
fn expansion_is_dropped_when_the_log_set_shrinks_past_it() {
    let mut s = AppState::default();
    s.last_terminal_height = 44;
    s.apply_fetched_logs(&fetched(50));
    s.selected_log_index = Some(40);
    s.expanded_log_index = Some(40);
    s.update_visible_logs_with_height(44);
    s.apply_fetched_logs(&fetched(20));
    assert_eq!(s.expanded_log_index, None);
    // an expansion still inside the sequence stays
    s.expanded_log_index = Some(5);
    s.apply_fetched_logs(&fetched(20));
    assert_eq!(s.expanded_log_index, Some(5));
}

#[test]
fn selection_is_cleared_when_everything_vanishes() {
    let mut s = AppState::default();
    s.last_terminal_height = 44;
    s.apply_fetched_logs(&fetched(5));
    s.selected_log_index = Some(3);
    s.update_visible_logs_with_height(44);
    s.apply_fetched_logs(&Vec::new());
    assert_eq!(s.selected_log_index, None);
    assert!(s.logs.is_empty());
}

#[test]
fn handle_key_dispatches_refresh_and_deselect() {
    let mut s = AppState::default();
    s.handle_key(KeyCommand::Refresh, 44);
    assert_eq!(s.status, "Manual refresh triggered");
    s.selected_log_index = Some(1);
    s.handle_key(KeyCommand::Deselect, 44);
    assert_eq!(s.selected_log_index, None);
}

#[test]
fn handle_key_steps_the_time_range() {
    let mut s = AppState::default();
    assert_eq!(s.metrics_time_range, TimeRange::FiveMin);
    s.handle_key(KeyCommand::RangeNext, 44);
    assert_eq!(s.metrics_time_range, TimeRange::ThirtyMin);
    s.handle_key(KeyCommand::RangePrev, 44);
    s.handle_key(KeyCommand::RangePrev, 44);
    assert_eq!(s.metrics_time_range, TimeRange::OneMin);
}

#[test]
fn toggle_expand_follows_the_selection() {
    let mut s = AppState::default();
    s.handle_key(KeyCommand::ToggleExpand, 44);
    assert_eq!(s.expanded_log_index, None);
    s.selected_log_index = Some(4);
    s.handle_key(KeyCommand::ToggleExpand, 44);
    assert_eq!(s.expanded_log_index, Some(4));
    s.handle_key(KeyCommand::ToggleExpand, 44);
    assert_eq!(s.expanded_log_index, None);
    s.handle_key(KeyCommand::ToggleExpand, 44);
    s.selected_log_index = Some(7);
    s.handle_key(KeyCommand::ToggleExpand, 44);
    assert_eq!(s.expanded_log_index, Some(7));
}

#[test]
fn handle_key_moves_the_selection() {
    let mut s = AppState::default();
    s.last_terminal_height = 44;
    s.apply_fetched_logs(&fetched(100));
    s.handle_key(KeyCommand::SelectUp, 44);
    assert_eq!(s.selected_log_index, Some(99));
    s.handle_key(KeyCommand::SelectUp, 44);
    assert_eq!(s.selected_log_index, Some(98));
    s.handle_key(KeyCommand::JumpUp, 44);
    assert_eq!(s.selected_log_index, Some(93));
    s.handle_key(KeyCommand::SelectDown, 44);
    assert_eq!(s.selected_log_index, Some(94));
    s.handle_key(KeyCommand::JumpDown, 44);
    assert_eq!(s.selected_log_index, Some(99));
}

#[test]
fn copy_text_names_level_and_message() {
    let mut s = AppState::default();
    s.all_logs.push(LogEntry {
        timestamp: "t".to_string(),
        message: "disk is full".to_string(),
        level: "ERROR".to_string(),
        is_new: false,
    });
    assert_eq!(s.copy_log_text(), None);
    s.selected_log_index = Some(0);
    assert_eq!(s.copy_log_text(), Some("[ERROR] disk is full".to_string()));
    s.selected_log_index = Some(9);
    assert_eq!(s.copy_log_text(), None);
}

#[test]
fn copied_status_shows_a_thirty_character_head() {
    assert_eq!(copied_status("short"), "Log copied to clipboard (short...)");
    let long = "abcdefghijklmnopqrstuvwxyz0123456789";
    assert_eq!(
        copied_status(long),
        "Log copied to clipboard (abcdefghijklmnopqrstuvwxyz0123...)"
    );
}

#[test]
fn metrics_band_grows_with_the_terminal() {
    assert_eq!(metrics_band_height(20), 6);
    assert_eq!(metrics_band_height(29), 6);
    assert_eq!(metrics_band_height(30), 10);
    assert_eq!(metrics_band_height(50), 10);
    assert_eq!(metrics_band_height(51), 12);
}
