//! What the screens show: shortcut bar entries, heatmap tiers and grid,
//! overdue markers and the day's progress.

use habitodo::app::{AppState, InputMode, Screen};
use habitodo::calendar::CalendarDate;
use habitodo::domain::{Habit, Todo};
use habitodo::presentation::{
    habit_progress, heat_tier, is_overdue, month_grid, month_grid_of, shortcut_bar_items,
    status_is_error, todo_progress, HeatTier,
};
use habitodo::text::contains_text;
use std::collections::HashMap;

fn d(year: i32, month: u32, day: u32) -> CalendarDate {
    CalendarDate { year, month, day }
}

fn state() -> AppState {
    AppState::new(d(2026, 9, 23), Vec::new(), Vec::new(), Vec::new(), Vec::new(), HashMap::new())
}

fn habit(id: i64, name: &str) -> Habit {
    Habit {
        id,
        name: name.to_string(),
        position: id,
        created_at: "2026-09-01".to_string(),
        archived: false,
    }
}

fn todo(due: Option<CalendarDate>, completed: bool) -> Todo {
    Todo {
        id: 1,
        title: "Review PR".to_string(),
        notes: None,
        completed,
        created_at: "2026-09-01".to_string(),
        completed_at: None,
        due_date: due,
        position: 0,
    }
}

#[test]
fn heat_tiers_follow_completion_share() {
    assert_eq!(heat_tier(0, 4), HeatTier::Empty);
    assert_eq!(heat_tier(0, 0), HeatTier::Empty);
    assert_eq!(heat_tier(3, 0), HeatTier::Low);
    assert_eq!(heat_tier(1, 4), HeatTier::Low);
    assert_eq!(heat_tier(2, 4), HeatTier::Medium);
    assert_eq!(heat_tier(3, 4), HeatTier::High);
    assert_eq!(heat_tier(4, 4), HeatTier::Full);
    assert_eq!(heat_tier(5, 4), HeatTier::Full);
    assert_eq!(heat_tier(2, 3), HeatTier::Medium);
    assert_eq!(heat_tier(1, 3), HeatTier::Low);
    assert_eq!(heat_tier(usize::MAX - 1, usize::MAX), HeatTier::High);
}

#[test]
fn heat_tiers_agree_with_the_float_ratio() {
    for total in 1..40usize {
        for count in 1..=total + 2 {
            let ratio = count as f32 / total as f32;
            let expected = if ratio >= 1.0 {
                HeatTier::Full
            } else if ratio >= 0.75 {
                HeatTier::High
            } else if ratio >= 0.50 {
                HeatTier::Medium
            } else {
                HeatTier::Low
            };
            assert_eq!(heat_tier(count, total), expected);
        }
    }
}

#[test]
fn shortcut_bar_lists_screen_shortcuts_in_normal_mode() {
    let mut s = state();
    let main = shortcut_bar_items(&s);
    assert_eq!(main.len(), 12);
    assert_eq!(main[0], ("j/k", "Navigate"));
    assert_eq!(main[1], ("Space", "Toggle"));
    assert_eq!(main[11], ("q", "Quit"));
    s.screen = Screen::Settings;
    let settings = shortcut_bar_items(&s);
    assert_eq!(
        settings,
        vec![
            ("j/k", "Navigate"),
            ("i", "Add Habit"),
            ("r", "Rename"),
            ("J/K", "Reorder"),
            ("d", "Archive"),
            ("e", "Export JSON"),
            ("Esc", "Back"),
        ]
    );
}

#[test]
fn shortcut_bar_follows_inputs_dialogs_and_help() {
    let mut s = state();
    s.input_mode = InputMode::ConfirmDelete(5);
    assert_eq!(
        shortcut_bar_items(&s),
        vec![("y / Enter", "Confirm Delete"), ("n / Esc", "Cancel")]
    );
    s.input_mode = InputMode::AddingTodo;
    assert_eq!(shortcut_bar_items(&s), vec![("Enter", "Save Task"), ("Esc", "Cancel")]);
    s.input_mode = InputMode::EditingTodo(1);
    assert_eq!(shortcut_bar_items(&s), vec![("Enter", "Save Title"), ("Esc", "Cancel")]);
    s.input_mode = InputMode::EditingNotes(1);
    assert_eq!(shortcut_bar_items(&s), vec![("Enter", "Save Notes"), ("Esc", "Cancel")]);
    s.input_mode = InputMode::AddingHabit;
    assert_eq!(shortcut_bar_items(&s), vec![("Enter", "Save Habit"), ("Esc", "Cancel")]);
    s.input_mode = InputMode::RenamingHabit(2);
    assert_eq!(shortcut_bar_items(&s), vec![("Enter", "Save Name"), ("Esc", "Cancel")]);
    s.show_help = true;
    assert_eq!(shortcut_bar_items(&s), vec![("Esc / ?", "Close Help")]);
}

#[test]
fn month_grid_pads_to_whole_weeks() {
    // September 2026 starts on a Tuesday and has 30 days.
    let rows = month_grid(1, 30);
    assert_eq!(rows.len(), 5);
    assert_eq!(rows[0], vec![None, Some(1), Some(2), Some(3), Some(4), Some(5), Some(6)]);
    assert_eq!(rows[4], vec![Some(28), Some(29), Some(30), None, None, None, None]);
    // February 2021 starts on a Monday and fills exactly four weeks.
    let feb = month_grid(0, 28);
    assert_eq!(feb.len(), 4);
    assert_eq!(feb[3], vec![Some(22), Some(23), Some(24), Some(25), Some(26), Some(27), Some(28)]);
    // A 31-day month starting on a Sunday needs six rows.
    let long = month_grid(6, 31);
    assert_eq!(long.len(), 6);
    assert_eq!(long[0][6], Some(1));
    assert_eq!(long[5], vec![Some(30), Some(31), None, None, None, None, None]);
    assert!(month_grid(0, 0).is_empty());
    assert_eq!(month_grid(3, 0), vec![vec![None; 7]]);
}

#[test]
fn month_grid_of_a_date_uses_its_month() {
    assert_eq!(month_grid_of(d(2026, 9, 23)), month_grid(1, 30));
    assert_eq!(month_grid_of(d(2024, 2, 10)), month_grid(3, 29));
    assert_eq!(month_grid_of(d(2023, 2, 10)), month_grid(2, 28));
    assert_eq!(month_grid_of(d(2026, 12, 25)), month_grid(1, 31));
}

#[test]
fn overdue_means_open_and_due_before_today() {
    let today = d(2026, 9, 23);
    assert!(is_overdue(&todo(Some(d(2026, 9, 22)), false), today));
    assert!(!is_overdue(&todo(Some(d(2026, 9, 22)), true), today));
    assert!(!is_overdue(&todo(Some(d(2026, 9, 23)), false), today));
    assert!(!is_overdue(&todo(Some(d(2026, 10, 1)), false), today));
    assert!(!is_overdue(&todo(None, false), today));
    assert!(is_overdue(&todo(Some(d(2025, 12, 31)), false), today));
}

#[test]
fn progress_counts_completed_habits() {
    assert_eq!(habit_progress(&Vec::new()), (0, 0));
    let habits = vec![
        (habit(1, "Exercise"), true),
        (habit(2, "Meditate"), false),
        (habit(3, "Read"), true),
    ];
    assert_eq!(habit_progress(&habits), (2, 3));
}

#[test]
fn todo_badge_counts_open_items() {
    assert_eq!(todo_progress(&Vec::new()), (0, 0));
    let todos = vec![todo(None, false), todo(None, true), todo(None, false)];
    assert_eq!(todo_progress(&todos), (2, 3));
}

#[test]
fn failure_statuses_are_recognised() {
    assert!(status_is_error("Database error: disk full"));
    assert!(status_is_error("Error while saving"));
    assert!(!status_is_error("Failed to export data: a (fallback: b)"));
    assert!(status_is_error("Export failed: denied"));
    assert!(!status_is_error("Export saved to /tmp/x.json"));
    assert!(!status_is_error("Data imported successfully"));
    assert!(!status_is_error(""));
    assert!(!status_is_error("erro"));
}

#[test]
fn text_search_finds_runs_of_characters() {
    assert!(contains_text("Habits cannot be deleted", "cannot"));
    assert!(contains_text("abc", ""));
    assert!(contains_text("", ""));
    assert!(!contains_text("", "a"));
    assert!(contains_text("aab", "ab"));
    assert!(!contains_text("ab", "abc"));
    assert!(contains_text("héllo", "él"));
}

#[test]
fn test_bottom_shortcut_bar_all_modes() {
    let mut state = state();

    state.screen = Screen::Main;
    state.input_mode = InputMode::Normal;
    assert_eq!(shortcut_bar_items(&state).len(), 12);

    state.screen = Screen::Settings;
    state.input_mode = InputMode::Normal;
    assert_eq!(shortcut_bar_items(&state).len(), 7);

    for (mode, first) in [
        (InputMode::AddingTodo, ("Enter", "Save Task")),
        (InputMode::EditingTodo(1), ("Enter", "Save Title")),
        (InputMode::EditingNotes(1), ("Enter", "Save Notes")),
        (InputMode::AddingHabit, ("Enter", "Save Habit")),
        (InputMode::RenamingHabit(1), ("Enter", "Save Name")),
        (InputMode::ConfirmDelete(1), ("y / Enter", "Confirm Delete")),
    ] {
        state.input_mode = mode;
        let bar = shortcut_bar_items(&state);
        assert_eq!(bar.len(), 2);
        assert_eq!(bar[0], first);
    }

    state.show_help = true;
    assert_eq!(shortcut_bar_items(&state), vec![("Esc / ?", "Close Help")]);
}

fn days_listed(rows: &[Vec<Option<u32>>]) -> Vec<u32> {
    rows.iter().flat_map(|r| r.iter().filter_map(|c| *c)).collect()
}

#[test]
fn test_heatmap_month_boundaries_and_leap_years() {
    // Leap year: Feb 2024 (29 days)
    let grid = month_grid_of(d(2024, 2, 15));
    assert_eq!(days_listed(&grid), (1..=29).collect::<Vec<u32>>());

    // Non-leap year: Feb 2023 (28 days)
    let grid = month_grid_of(d(2023, 2, 10));
    assert_eq!(days_listed(&grid), (1..=28).collect::<Vec<u32>>());

    // 31-day month: Dec 2026
    let grid = month_grid_of(d(2026, 12, 25));
    assert_eq!(days_listed(&grid), (1..=31).collect::<Vec<u32>>());

    // 30-day month: Sep 2026
    let grid = month_grid_of(d(2026, 9, 23));
    assert_eq!(days_listed(&grid), (1..=30).collect::<Vec<u32>>());
    assert!(grid.iter().all(|row| row.len() == 7));
}
