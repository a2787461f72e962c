//! Domain records and their defaults.

use habitodo::calendar::CalendarDate;
use habitodo::domain::{default_completed_true, default_export_version, DailyStats, ExportData};

#[test]
fn defaults_of_stored_fields() {
    assert!(default_completed_true());
    assert_eq!(default_export_version(), 1);
}

#[test]
fn daily_stats_keep_their_counts() {
    let date = CalendarDate { year: 2026, month: 9, day: 23 };
    let s = DailyStats::new(date, 4, 3);
    assert_eq!(s.date, date);
    assert_eq!(s.total_habits, 4);
    assert_eq!(s.completed_count(), 3);
}

#[test]
fn an_empty_export_has_the_current_version() {
    let e = ExportData::default();
    assert_eq!(e.version, 1);
    assert!(e.habits.is_empty());
    assert!(e.habit_completions.is_empty());
    assert!(e.todos.is_empty());
    assert!(e.settings.is_empty());
    assert!(!e.exported_at.is_empty());
}
