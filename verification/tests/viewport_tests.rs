use rustdash::logs::LogEntry;
use rustdash::state::{size_warning_needed, AppState};

fn entry(msg: &str) -> LogEntry {
    LogEntry {
        timestamp: "t".to_string(),
        message: msg.to_string(),
        level: "INFO".to_string(),
        is_new: false,
    }
}

fn state_with_logs(n: usize) -> AppState {
    let mut s = AppState::default();
    for i in 0..n {
        s.all_logs.push(entry(&format!("line {}", i)));
    }
    s
}

#[test]
fn visible_height_never_below_five() {
    let s = AppState::default();
    for h in 0..200u16 {
        assert!(s.get_visible_height(h) >= 5);
    }
    assert!(s.get_visible_height(0) >= 5);
    assert!(s.get_visible_height(24) >= 5);
    assert!(s.get_visible_height(u16::MAX) >= 5);
}

#[test]
fn visible_height_exact_values() {
    let s = AppState::default();
    // below 30 rows the chrome takes 20 rows
    assert_eq!(s.get_visible_height(24), 5);
    assert_eq!(s.get_visible_height(29), 9);
    // from 30 to 50 rows the chrome takes 24 rows
    assert_eq!(s.get_visible_height(30), 6);
    assert_eq!(s.get_visible_height(44), 20);
    assert_eq!(s.get_visible_height(50), 26);
    // above 50 rows the chrome takes 26 rows
    assert_eq!(s.get_visible_height(51), 25);
    assert_eq!(s.get_visible_height(100), 74);
}

#[test]
fn recompute_clamps_scroll_and_slices() {
    let mut s = state_with_logs(100);
    s.log_scroll_offset = 1000;
    s.update_visible_logs_with_height(44); // viewport of 20 rows
    assert_eq!(s.log_scroll_offset, 80);
    assert_eq!(s.logs.len(), 20);
    assert_eq!(s.logs[0].message, "line 80");
    assert_eq!(s.logs[19].message, "line 99");
}

#[test]
fn recompute_is_idempotent() {
    let mut s = state_with_logs(37);
    s.log_scroll_offset = 999;
    s.update_visible_logs_with_height(44);
    let off1 = s.log_scroll_offset;
    let msgs1: Vec<String> = s.logs.iter().map(|e| e.message.clone()).collect();
    s.update_visible_logs_with_height(44);
    let off2 = s.log_scroll_offset;
    let msgs2: Vec<String> = s.logs.iter().map(|e| e.message.clone()).collect();
    assert_eq!(off1, off2);
    assert_eq!(msgs1, msgs2);
}

#[test]
fn recompute_with_no_logs_leaves_empty_slice() {
    let mut s = AppState::default();
    s.log_scroll_offset = 7;
    s.update_visible_logs_with_height(44);
    assert_eq!(s.logs.len(), 0);
    assert_eq!(s.log_scroll_offset, 7);
}

#[test]
fn viewport_invariant_after_mutations() {
    let mut s = state_with_logs(60);
    s.update_visible_logs_with_height(30);
    assert!(s.log_scroll_offset + s.logs.len() <= s.all_logs.len());
    s.move_selection_up(30);
    assert!(s.log_scroll_offset + s.logs.len() <= s.all_logs.len());
    s.jump_selection_up(30);
    assert!(s.log_scroll_offset + s.logs.len() <= s.all_logs.len());
    s.move_selection_down(30);
    assert!(s.log_scroll_offset + s.logs.len() <= s.all_logs.len());
    s.jump_selection_down(30);
    assert!(s.log_scroll_offset + s.logs.len() <= s.all_logs.len());
    let fetched: Vec<LogEntry> = (0..25).map(|i| entry(&format!("f{}", i))).collect();
    s.apply_fetched_logs(&fetched);
    assert!(s.log_scroll_offset + s.logs.len() <= s.all_logs.len());
}

#[test]
fn jump_down_from_95_of_100_lands_on_99_with_offset_80() {
    let mut s = state_with_logs(100);
    s.selected_log_index = Some(95);
    s.log_scroll_offset = 76;
    s.update_visible_logs_with_height(44); // viewport of 20 rows
    s.jump_selection_down(44);
    assert_eq!(s.selected_log_index, Some(99));
    assert_eq!(s.log_scroll_offset, 80);
    assert_eq!(s.logs.len(), 20);
}

#[test]
fn moving_with_no_selection_enters_at_the_newest_entry() {
    let mut s = state_with_logs(50);
    s.move_selection_up(44);
    assert_eq!(s.selected_log_index, Some(49));
    assert_eq!(s.log_scroll_offset, 30);
    let mut t = state_with_logs(50);
    t.move_selection_down(44);
    assert_eq!(t.selected_log_index, Some(49));
    assert_eq!(t.log_scroll_offset, 30);
}

#[test]
fn moving_up_pulls_the_window_along() {
    let mut s = state_with_logs(50);
    s.selected_log_index = Some(30);
    s.log_scroll_offset = 30;
    s.update_visible_logs_with_height(44);
    s.move_selection_up(44);
    assert_eq!(s.selected_log_index, Some(29));
    assert_eq!(s.log_scroll_offset, 29);
}

#[test]
fn moving_down_pulls_the_window_along() {
    let mut s = state_with_logs(50);
    s.selected_log_index = Some(24);
    s.log_scroll_offset = 5;
    s.update_visible_logs_with_height(44);
    // selection at the last visible row; one step down scrolls by one
    s.move_selection_down(44);
    assert_eq!(s.selected_log_index, Some(25));
    assert_eq!(s.log_scroll_offset, 6);
}

#[test]
fn selection_stops_at_the_edges() {
    let mut s = state_with_logs(10);
    s.selected_log_index = Some(0);
    s.move_selection_up(44);
    assert_eq!(s.selected_log_index, Some(0));
    s.selected_log_index = Some(9);
    s.move_selection_down(44);
    assert_eq!(s.selected_log_index, Some(9));
    s.jump_selection_down(44);
    assert_eq!(s.selected_log_index, Some(9));
    s.selected_log_index = Some(2);
    s.jump_selection_up(44);
    assert_eq!(s.selected_log_index, Some(0));
}

#[test]
fn small_terminal_gets_the_warning_screen() {
    // height 24, the stated minimum, shows the warning whatever the width
    assert!(size_warning_needed(80, 24));
    assert!(size_warning_needed(200, 24));
    assert!(size_warning_needed(80, 10));
    assert!(size_warning_needed(79, 100));
    assert!(!size_warning_needed(80, 25));
    assert!(!size_warning_needed(120, 40));
}
