//! Domain records: habits, their daily completions, to-dos, daily statistics
//! and the full export container.

use std::collections::HashMap;
use vstd::prelude::*;
use crate::calendar::CalendarDate;

verus! {

/// Value a stored completion takes when its `completed` flag is absent.
pub fn default_completed_true() -> (r: bool)
    ensures
        r,
{
    true
}

/// Export format version assumed when a backup does not name one.
pub fn default_export_version() -> (r: u32)
    ensures
        r == 1,
{
    1
}

/// A non-negotiable daily habit.
#[derive(Debug, Clone, PartialEq, Eq)]
pub struct Habit {
    pub id: i64,
    pub name: String,
    pub position: i64,
    pub created_at: String,
    pub archived: bool,
}

/// Completion record of one habit on one calendar date.
#[derive(Debug, Clone, PartialEq, Eq)]
pub struct HabitCompletion {
    pub habit_id: i64,
    pub date: CalendarDate,
    pub completed: bool,
}

/// A free-form to-do item.
#[derive(Debug, Clone, PartialEq, Eq)]
pub struct Todo {
    pub id: i64,
    pub title: String,
    pub notes: Option<String>,
    pub completed: bool,
    pub created_at: String,
    pub completed_at: Option<String>,
    pub due_date: Option<CalendarDate>,
    pub position: i64,
}

/// Aggregated habit completion counts for one calendar date.
#[derive(Debug, Clone, PartialEq, Eq)]
pub struct DailyStats {
    pub date: CalendarDate,
    pub total_habits: usize,
    pub completed_habits: usize,
}

impl DailyStats {
    pub fn new(date: CalendarDate, total_habits: usize, completed_habits: usize) -> (r: Self)
        ensures
            r.date == date,
            r.total_habits == total_habits,
            r.completed_habits == completed_habits,
    {
        DailyStats { date, total_habits, completed_habits }
    }

    /// Number of habits completed on the day.
    pub fn completed_count(&self) -> (r: usize)
        ensures
            r == self.completed_habits,
    {
        self.completed_habits
    }
}

/// Full database backup: every table, plus format version and export time.
#[derive(Debug, Clone, PartialEq, Eq)]
pub struct ExportData {
    pub version: u32,
    pub exported_at: String,
    pub habits: Vec<Habit>,
    pub habit_completions: Vec<HabitCompletion>,
    pub todos: Vec<Todo>,
    pub settings: HashMap<String, String>,
}

/// Current UTC time in RFC 3339 form, from `chrono::Utc::now().to_rfc3339()`.
///
/// The text depends on the clock, so nothing is stated about it.
#[verifier::external_body]
fn utc_now_rfc3339() -> String {
    chrono::Utc::now().to_rfc3339()
}

impl Default for ExportData {
    /// An empty backup of the current format version, stamped with the
    /// current time.
    fn default() -> (r: Self)
        ensures
            r.version == 1,
            r.habits@.len() == 0,
            r.habit_completions@.len() == 0,
            r.todos@.len() == 0,
            r.settings@ == Map::<String, String>::empty(),
    {
        ExportData {
            version: 1,
            exported_at: utc_now_rfc3339(),
            habits: Vec::new(),
            habit_completions: Vec::new(),
            todos: Vec::new(),
            settings: HashMap::new(),
        }
    }
}

} // verus!
