//! The application state machine, driven end to end: every effect it names
//! is carried out against an in-memory store kept by the test, and the
//! outcome is fed back as the application's event loop does.

use habitodo::app::state::{
    AfterReload, AfterWrite, DbWrite, Effect, ExportOutcome, ReloadData,
};
use habitodo::app::{AppState, InputMode, Message, Screen};
use habitodo::calendar::{local_today, pred_opt, succ_opt, CalendarDate};
use habitodo::domain::{DailyStats, ExportData, Habit, HabitCompletion, Todo};
use habitodo::queries::reorder_ids;
use std::collections::HashMap;

/// In-memory stand-in for the SQLite store, with the same rules: unique
/// habit names, positions appended at the end, archived habits hidden,
/// to-dos listed open first.
#[derive(Default)]
struct Store {
    habits: Vec<Habit>,
    completions: Vec<HabitCompletion>,
    todos: Vec<Todo>,
    settings: HashMap<String, String>,
    next_id: i64,
    export_count: usize,
}

impl Store {
    fn fresh_id(&mut self) -> i64 {
        self.next_id += 1;
        self.next_id
    }

    fn active_habits(&self) -> Vec<Habit> {
        let mut hs: Vec<Habit> = self.habits.iter().filter(|h| !h.archived).cloned().collect();
        hs.sort_by_key(|h| (h.position, h.id));
        hs
    }

    fn completed_on(&self, habit_id: i64, date: CalendarDate) -> bool {
        self.completions
            .iter()
            .any(|c| c.habit_id == habit_id && c.date == date && c.completed)
    }

    fn habits_for_date(&self, date: CalendarDate) -> Vec<(Habit, bool)> {
        self.active_habits()
            .into_iter()
            .map(|h| {
                let done = self.completed_on(h.id, date);
                (h, done)
            })
            .collect()
    }

    fn all_todos(&self) -> Vec<Todo> {
        let mut ts = self.todos.clone();
        ts.sort_by_key(|t| (t.completed, t.position, t.id));
        ts
    }

    fn write(&mut self, w: DbWrite) -> Result<(), String> {
        match w {
            DbWrite::ToggleHabit { habit_id, date } => {
                match self
                    .completions
                    .iter_mut()
                    .find(|c| c.habit_id == habit_id && c.date == date)
                {
                    Some(c) => c.completed = !c.completed,
                    None => self.completions.push(HabitCompletion { habit_id, date, completed: true }),
                }
                Ok(())
            }
            DbWrite::AddHabit { name } => {
                if self.habits.iter().any(|h| h.name == name) {
                    return Err("UNIQUE constraint failed: habits.name".to_string());
                }
                let position = self.habits.iter().map(|h| h.position + 1).max().unwrap_or(0);
                let id = self.fresh_id();
                self.habits.push(Habit {
                    id,
                    name,
                    position,
                    created_at: "2026-09-23 08:00:00".to_string(),
                    archived: false,
                });
                Ok(())
            }
            DbWrite::ArchiveHabit { habit_id } => {
                for h in self.habits.iter_mut().filter(|h| h.id == habit_id) {
                    h.archived = true;
                }
                Ok(())
            }
            DbWrite::RenameHabit { habit_id, name } => {
                if self.habits.iter().any(|h| h.name == name && h.id != habit_id) {
                    return Err("UNIQUE constraint failed: habits.name".to_string());
                }
                for h in self.habits.iter_mut().filter(|h| h.id == habit_id) {
                    h.name = name.clone();
                }
                Ok(())
            }
            DbWrite::ReorderHabit { habit_id, move_up } => {
                let ids: Vec<i64> = self.active_habits().iter().map(|h| h.id).collect();
                if let Some(order) = reorder_ids(&ids, habit_id, move_up) {
                    for (pos, id) in order.iter().enumerate() {
                        for h in self.habits.iter_mut().filter(|h| h.id == *id) {
                            h.position = pos as i64;
                        }
                    }
                }
                Ok(())
            }
            DbWrite::ToggleTodo { todo_id } => match self.todos.iter_mut().find(|t| t.id == todo_id) {
                Some(t) => {
                    t.completed = !t.completed;
                    t.completed_at =
                        if t.completed { Some("2026-09-23 12:00:00".to_string()) } else { None };
                    Ok(())
                }
                None => Err("Query returned no rows".to_string()),
            },
            DbWrite::AddTodo { title, notes, due_date } => {
                let position = self.todos.iter().map(|t| t.position + 1).max().unwrap_or(0);
                let id = self.fresh_id();
                self.todos.push(Todo {
                    id,
                    title,
                    notes,
                    completed: false,
                    created_at: "2026-09-23 08:00:00".to_string(),
                    completed_at: None,
                    due_date,
                    position,
                });
                Ok(())
            }
            DbWrite::DeleteTodo { todo_id } => {
                self.todos.retain(|t| t.id != todo_id);
                Ok(())
            }
            DbWrite::UpdateTodoNotes { todo_id, notes } => {
                for t in self.todos.iter_mut().filter(|t| t.id == todo_id) {
                    t.notes = notes.clone();
                }
                Ok(())
            }
            DbWrite::UpdateTodoTitle { todo_id, title } => {
                for t in self.todos.iter_mut().filter(|t| t.id == todo_id) {
                    t.title = title.clone();
                }
                Ok(())
            }
            DbWrite::ImportData(data) => {
                let data = *data;
                for h in data.habits {
                    self.habits.retain(|x| x.id != h.id);
                    self.next_id = self.next_id.max(h.id);
                    self.habits.push(h);
                }
                for c in data.habit_completions {
                    self.completions.retain(|x| !(x.habit_id == c.habit_id && x.date == c.date));
                    self.completions.push(c);
                }
                for t in data.todos {
                    self.todos.retain(|x| x.id != t.id);
                    self.next_id = self.next_id.max(t.id);
                    self.todos.push(t);
                }
                self.settings.extend(data.settings);
                Ok(())
            }
        }
    }

    fn reload(&self, date: CalendarDate) -> ReloadData {
        let habits = self.habits_for_date(date);
        let mut heatmap = HashMap::new();
        for c in self.completions.iter().filter(|c| c.completed) {
            if c.date.year == date.year && c.date.month == date.month {
                *heatmap.entry(c.date).or_insert(0usize) += 1;
            }
        }
        let stats = vec![DailyStats::new(
            date,
            habits.len(),
            habits.iter().filter(|(_, done)| *done).count(),
        )];
        let success = habits
            .iter()
            .map(|(h, _)| {
                let n = self.completions.iter().filter(|c| c.habit_id == h.id && c.completed).count();
                (h.id, n as i64)
            })
            .collect();
        ReloadData {
            habits: Some(habits),
            todos: Some(self.all_todos()),
            daily_stats_30_days: Some(stats),
            habit_success_days: Some(success),
            monthly_heatmap: Some(heatmap),
            error: None,
        }
    }

    fn export(&self) -> ExportData {
        let mut data = ExportData::default();
        data.habits = self.habits.clone();
        data.habit_completions = self.completions.clone();
        data.todos = self.todos.clone();
        data.settings = self.settings.clone();
        data
    }
}

/// The application with its store, as the event loop runs it.
struct App {
    state: AppState,
    db: Store,
}

impl App {
    fn new() -> App {
        let db = Store::default();
        let mut state =
            AppState::new(local_today(), Vec::new(), Vec::new(), Vec::new(), Vec::new(), HashMap::new());
        let eff = state.update(Message::Init);
        let mut app = App { state, db };
        app.run(eff);
        app
    }

    fn update(&mut self, message: Message) {
        let eff = self.state.update(message);
        self.run(eff);
    }

    fn run(&mut self, mut eff: Effect) {
        loop {
            eff = match eff {
                Effect::Write(w, then) => {
                    let result = self.db.write(w);
                    self.state.write_finished(then, result)
                }
                Effect::Reload(then) => {
                    let data = self.db.reload(self.state.selected_date);
                    self.state.reload_finished(then, data)
                }
                Effect::Export => {
                    self.db.export_count += 1;
                    let path = format!("/tmp/habitodo_export_{}.json", self.db.export_count);
                    self.state.export_finished(ExportOutcome::Saved(path));
                    Effect::Idle
                }
                Effect::Idle | Effect::Quit | Effect::Focus(_) => return,
            }
        }
    }
}

fn setup_test_state() -> App {
    App::new()
}

fn add_todo(title: &str, notes: Option<&str>, due_date: Option<CalendarDate>) -> Message {
    Message::AddTodo {
        title: title.into(),
        notes: notes.map(|n| n.to_string()),
        due_date,
    }
}

#[test]
fn test_app_state_initialization_on_empty_db() {
    let app = setup_test_state();
    let state = &app.state;
    assert_eq!(state.screen, Screen::Main);
    assert!(state.sidebar_open);
    assert_eq!(state.selected_index, 0);
    assert!(state.habits.is_empty());
    assert!(state.todos.is_empty());
    assert_eq!(state.input_mode, InputMode::Normal);
    assert!(state.input_buffer.is_empty());
    assert!(state.notes_buffer.is_empty());
    assert!(state.status_message.is_none());
    assert!(!state.show_help);
}

#[test]
fn test_navigation_boundary_checks_empty_and_non_empty() {
    let mut app = setup_test_state();

    app.update(Message::NavigateDown);
    assert_eq!(app.state.selected_index, 0);
    app.update(Message::NavigateUp);
    assert_eq!(app.state.selected_index, 0);
    app.update(Message::GoTop);
    assert_eq!(app.state.selected_index, 0);
    app.update(Message::GoBottom);
    assert_eq!(app.state.selected_index, 0);

    app.update(Message::AddHabit("Habit 1".into()));
    app.update(Message::AddHabit("Habit 2".into()));
    app.update(add_todo("Todo 1", None, None));
    app.update(add_todo("Todo 2", None, None));

    assert_eq!(app.state.habits.len(), 2);
    assert_eq!(app.state.todos.len(), 2);
    assert_eq!(app.state.total_items_for_screen(), 4);

    app.state.selected_index = 0;
    app.update(Message::NavigateDown);
    assert_eq!(app.state.selected_index, 1);
    app.update(Message::NavigateDown);
    assert_eq!(app.state.selected_index, 2);
    app.update(Message::NavigateDown);
    assert_eq!(app.state.selected_index, 3);
    app.update(Message::NavigateDown);
    assert_eq!(app.state.selected_index, 3);

    app.update(Message::NavigateUp);
    assert_eq!(app.state.selected_index, 2);
    app.update(Message::NavigateUp);
    assert_eq!(app.state.selected_index, 1);
    app.update(Message::NavigateUp);
    assert_eq!(app.state.selected_index, 0);
    app.update(Message::NavigateUp);
    assert_eq!(app.state.selected_index, 0);

    app.update(Message::GoBottom);
    assert_eq!(app.state.selected_index, 3);
    app.update(Message::GoTop);
    assert_eq!(app.state.selected_index, 0);
}

#[test]
fn test_date_navigation_transitions() {
    let mut app = setup_test_state();
    let initial_date = app.state.selected_date;

    app.update(Message::NextDay);
    assert_eq!(app.state.selected_date, succ_opt(initial_date).unwrap());

    app.update(Message::PreviousDay);
    assert_eq!(app.state.selected_date, initial_date);

    app.update(Message::PreviousDay);
    assert_eq!(app.state.selected_date, pred_opt(initial_date).unwrap());

    app.update(Message::GoToday);
    assert_eq!(app.state.selected_date, local_today());
}

#[test]
fn test_habit_actions_write_through() {
    let mut app = setup_test_state();

    app.update(Message::AddHabit("Morning Run".into()));
    assert_eq!(app.state.habits.len(), 1);
    let habit_id = app.state.habits[0].0.id;
    assert_eq!(app.state.habits[0].0.name, "Morning Run");
    assert!(!app.state.habits[0].1);

    let db_habits = app.db.habits_for_date(app.state.selected_date);
    assert_eq!(db_habits.len(), 1);
    assert_eq!(db_habits[0].0.name, "Morning Run");

    app.update(Message::ToggleHabit(habit_id));
    assert!(app.state.habits[0].1);
    let db_habits_after_toggle = app.db.habits_for_date(app.state.selected_date);
    assert!(db_habits_after_toggle[0].1);

    app.update(Message::ToggleHabit(habit_id));
    assert!(!app.state.habits[0].1);

    app.update(Message::RenameHabit(habit_id, "Evening Run".into()));
    assert_eq!(app.state.habits[0].0.name, "Evening Run");
    let db_habits_renamed = app.db.habits_for_date(app.state.selected_date);
    assert_eq!(db_habits_renamed[0].0.name, "Evening Run");

    app.update(Message::ArchiveHabit(habit_id));
    assert!(app.state.habits.is_empty());
    let db_habits_archived = app.db.habits_for_date(app.state.selected_date);
    assert!(db_habits_archived.is_empty());
}

#[test]
fn test_todo_actions_write_through() {
    let mut app = setup_test_state();

    let due = habitodo::calendar::from_ymd_opt(2026, 10, 15);
    app.update(add_todo("Write documentation", Some("Detailed guide"), due));

    assert_eq!(app.state.todos.len(), 1);
    let todo_id = app.state.todos[0].id;
    assert_eq!(app.state.todos[0].title, "Write documentation");
    assert_eq!(app.state.todos[0].notes.as_deref(), Some("Detailed guide"));
    assert_eq!(app.state.todos[0].due_date, due);
    assert!(!app.state.todos[0].completed);

    let db_todos = app.db.all_todos();
    assert_eq!(db_todos.len(), 1);
    assert_eq!(db_todos[0].title, "Write documentation");

    app.update(Message::ToggleTodo(todo_id));
    assert!(app.state.todos[0].completed);
    assert!(app.state.todos[0].completed_at.is_some());

    let db_todos_toggled = app.db.all_todos();
    assert!(db_todos_toggled[0].completed);

    app.update(Message::UpdateTodoNotes(todo_id, "Updated notes".into()));
    assert_eq!(app.state.todos[0].notes.as_deref(), Some("Updated notes"));

    app.update(Message::DeleteTodo(todo_id));
    assert!(app.state.todos.is_empty());
    let db_todos_deleted = app.db.all_todos();
    assert!(db_todos_deleted.is_empty());
}

#[test]
fn test_contextual_selection_actions() {
    let mut app = setup_test_state();
    app.update(Message::AddHabit("Daily Meditation".into()));
    app.update(add_todo("Call dentist", None, None));

    assert_eq!(app.state.habits.len(), 1);
    assert_eq!(app.state.todos.len(), 1);

    app.state.selected_index = 0;
    app.update(Message::ToggleSelected);
    assert!(app.state.habits[0].1);

    app.state.selected_index = 1;
    app.update(Message::ToggleSelected);
    assert!(app.state.todos[0].completed);

    app.state.selected_index = 0;
    app.update(Message::DeleteSelected);
    assert!(app
        .state
        .status_message
        .as_ref()
        .unwrap()
        .contains("Habits cannot be deleted from main view"));
    assert_eq!(app.state.input_mode, InputMode::Normal);

    app.state.selected_index = 1;
    let todo_id = app.state.todos[0].id;
    app.update(Message::DeleteSelected);
    assert_eq!(app.state.input_mode, InputMode::ConfirmDelete(todo_id));

    app.update(Message::ConfirmDelete(todo_id));
    assert!(app.state.todos.is_empty());
    assert_eq!(app.state.input_mode, InputMode::Normal);
}

#[test]
fn test_settings_reorder_write_through() {
    let mut app = setup_test_state();
    app.update(Message::SwitchScreen(Screen::Settings));
    assert_eq!(app.state.screen, Screen::Settings);

    app.update(Message::AddHabit("Habit Alpha".into()));
    app.update(Message::AddHabit("Habit Beta".into()));
    app.update(Message::AddHabit("Habit Gamma".into()));

    assert_eq!(app.state.habits.len(), 3);
    assert_eq!(app.state.habits[0].0.name, "Habit Alpha");
    assert_eq!(app.state.habits[1].0.name, "Habit Beta");
    assert_eq!(app.state.habits[2].0.name, "Habit Gamma");

    let beta_id = app.state.habits[1].0.id;
    app.update(Message::ReorderHabit(beta_id, true));

    assert_eq!(app.state.habits[0].0.name, "Habit Beta");
    assert_eq!(app.state.habits[1].0.name, "Habit Alpha");
    assert_eq!(app.state.habits[2].0.name, "Habit Gamma");

    let db_habits = app.db.habits_for_date(app.state.selected_date);
    assert_eq!(db_habits[0].0.name, "Habit Beta");
    assert_eq!(db_habits[1].0.name, "Habit Alpha");

    app.state.selected_index = 0;
    app.update(Message::ReorderSelected(false));
    assert_eq!(app.state.habits[0].0.name, "Habit Alpha");
    assert_eq!(app.state.habits[1].0.name, "Habit Beta");
}

#[test]
fn test_non_blocking_error_handling() {
    let mut app = setup_test_state();

    app.update(Message::DbError("Connection reset".into()));
    assert_eq!(
        app.state.status_message.as_deref(),
        Some("Database error: Connection reset")
    );

    app.update(Message::ClearStatusMessage);
    assert!(app.state.status_message.is_none());

    app.update(Message::AddHabit("Reading".into()));
    assert!(app.state.status_message.is_none());

    app.update(Message::AddHabit("Reading".into()));
    assert!(app.state.status_message.is_some());
    assert!(app
        .state
        .status_message
        .as_ref()
        .unwrap()
        .contains("Database error"));
}

#[test]
fn test_modal_and_input_mode_transitions() {
    let mut app = setup_test_state();

    app.update(Message::SetInputMode(InputMode::AddingHabit));
    assert_eq!(app.state.input_mode, InputMode::AddingHabit);
    app.update(Message::InputChanged("Coding".into()));
    assert_eq!(app.state.input_buffer, "Coding");
    app.update(Message::SubmitInput);
    assert_eq!(app.state.input_mode, InputMode::Normal);
    assert!(app.state.input_buffer.is_empty());
    assert_eq!(app.state.habits.len(), 1);
    assert_eq!(app.state.habits[0].0.name, "Coding");

    app.update(Message::SetInputMode(InputMode::AddingTodo));
    assert_eq!(app.state.input_mode, InputMode::AddingTodo);
    app.update(Message::InputChanged("Review PR".into()));
    app.update(Message::NotesChanged("Check tests".into()));
    app.update(Message::SubmitInput);
    assert_eq!(app.state.input_mode, InputMode::Normal);
    assert_eq!(app.state.todos.len(), 1);
    assert_eq!(app.state.todos[0].title, "Review PR");
    assert_eq!(app.state.todos[0].notes.as_deref(), Some("Check tests"));

    app.update(Message::SetInputMode(InputMode::AddingTodo));
    app.update(Message::CancelModal);
    assert_eq!(app.state.input_mode, InputMode::Normal);

    app.update(Message::ToggleHelp);
    assert!(app.state.show_help);
    app.update(Message::CancelModal);
    assert!(!app.state.show_help);

    app.update(Message::SwitchScreen(Screen::Settings));
    assert_eq!(app.state.screen, Screen::Settings);
    app.update(Message::CancelModal);
    assert_eq!(app.state.screen, Screen::Main);
}

#[test]
fn test_export_and_import_transitions() {
    let mut app = setup_test_state();
    app.update(Message::AddHabit("Stretch".into()));
    app.update(add_todo("Water plants", None, None));

    app.update(Message::ExportData);
    assert!(app.state.status_message.is_some());
    assert!(app
        .state
        .status_message
        .as_ref()
        .unwrap()
        .contains("Export saved to"));

    let export_data = app.db.export();
    let mut new_app = setup_test_state();
    assert!(new_app.state.habits.is_empty());
    assert!(new_app.state.todos.is_empty());

    new_app.update(Message::ImportData(Box::new(export_data)));
    assert_eq!(new_app.state.habits.len(), 1);
    assert_eq!(new_app.state.habits[0].0.name, "Stretch");
    assert_eq!(new_app.state.todos.len(), 1);
    assert_eq!(new_app.state.todos[0].title, "Water plants");
}

#[test]
fn test_selected_item_helpers_and_screen_switching() {
    let mut app = setup_test_state();
    app.update(Message::AddHabit("Meditate".into()));
    app.update(add_todo("Clean desk", Some("Organize papers"), None));

    app.state.selected_index = 0;
    assert_eq!(app.state.selected_habit().unwrap().0.name, "Meditate");
    assert!(app.state.selected_todo().is_none());

    app.state.selected_index = 1;
    assert!(app.state.selected_habit().is_none());
    assert_eq!(app.state.selected_todo().unwrap().title, "Clean desk");

    app.update(Message::SwitchScreen(Screen::Settings));
    assert_eq!(app.state.selected_index, 0);
    assert_eq!(app.state.selected_habit().unwrap().0.name, "Meditate");
    assert!(app.state.selected_todo().is_none());
}

#[test]
fn test_whitespace_and_empty_inputs_safety() {
    let mut app = setup_test_state();

    app.update(Message::AddHabit("   ".into()));
    assert!(app.state.habits.is_empty());
    assert_eq!(app.state.input_mode, InputMode::Normal);

    app.update(add_todo("   ", None, None));
    assert!(app.state.todos.is_empty());
    assert_eq!(app.state.input_mode, InputMode::Normal);
}

#[test]
fn test_notes_editing_flow() {
    let mut app = setup_test_state();
    app.update(add_todo("Write report", None, None));

    app.state.selected_index = 0;
    app.update(Message::StartEditNotes);
    let todo_id = app.state.todos[0].id;
    assert_eq!(app.state.input_mode, InputMode::EditingNotes(todo_id));

    app.update(Message::NotesChanged("Preliminary draft".into()));
    app.update(Message::SubmitInput);

    assert_eq!(app.state.input_mode, InputMode::Normal);
    assert_eq!(app.state.todos[0].notes.as_deref(), Some("Preliminary draft"));
}

#[test]
fn test_extreme_date_navigation_invariants() {
    let mut app = setup_test_state();

    let min = CalendarDate { year: -262143, month: 1, day: 1 };
    let max = CalendarDate { year: 262142, month: 12, day: 31 };

    app.state.selected_date = min;
    app.update(Message::PreviousDay);
    assert_eq!(app.state.selected_date, min);

    app.state.selected_date = max;
    app.update(Message::NextDay);
    assert_eq!(app.state.selected_date, max);
}

fn fresh_state() -> AppState {
    let today = CalendarDate { year: 2026, month: 9, day: 23 };
    AppState::new(today, Vec::new(), Vec::new(), Vec::new(), Vec::new(), HashMap::new())
}

fn empty_reload() -> ReloadData {
    ReloadData {
        habits: Some(Vec::new()),
        todos: Some(Vec::new()),
        daily_stats_30_days: Some(Vec::new()),
        habit_success_days: Some(Vec::new()),
        monthly_heatmap: Some(HashMap::new()),
        error: None,
    }
}

#[test]
fn toggling_sidebar_or_help_twice_restores_them() {
    let mut s = fresh_state();
    assert!(matches!(s.update(Message::ToggleSidebar), Effect::Idle));
    assert!(!s.sidebar_open);
    s.update(Message::ToggleSidebar);
    assert!(s.sidebar_open);
    s.update(Message::ToggleHelp);
    assert!(s.show_help);
    s.update(Message::ToggleHelp);
    assert!(!s.show_help);
}

#[test]
fn date_steps_ask_for_a_reload_and_undo_each_other() {
    let mut s = fresh_state();
    assert!(matches!(s.update(Message::NextDay), Effect::Reload(AfterReload::Nothing)));
    assert_eq!(s.selected_date, CalendarDate { year: 2026, month: 9, day: 24 });
    s.update(Message::PreviousDay);
    s.update(Message::PreviousDay);
    assert_eq!(s.selected_date, CalendarDate { year: 2026, month: 9, day: 22 });
    s.update(Message::NextDay);
    assert_eq!(s.selected_date, CalendarDate { year: 2026, month: 9, day: 23 });
    s.selected_date = CalendarDate { year: 2026, month: 12, day: 31 };
    s.update(Message::NextDay);
    assert_eq!(s.selected_date, CalendarDate { year: 2027, month: 1, day: 1 });
}

#[test]
fn navigating_down_then_up_returns_to_the_item() {
    let mut app = setup_test_state();
    app.update(Message::AddHabit("A".into()));
    app.update(Message::AddHabit("B".into()));
    app.state.selected_index = 0;
    app.update(Message::NavigateDown);
    app.update(Message::NavigateUp);
    assert_eq!(app.state.selected_index, 0);
}

#[test]
fn blank_inputs_only_close_the_input() {
    let mut s = fresh_state();
    s.update(Message::SetInputMode(InputMode::AddingTodo));
    s.update(Message::InputChanged(" \t ".into()));
    let eff = s.update(Message::SubmitInput);
    assert!(matches!(eff, Effect::Idle));
    assert_eq!(s.input_mode, InputMode::Normal);
    assert!(matches!(s.update(Message::AddHabit("\n".into())), Effect::Idle));
}

#[test]
fn names_are_trimmed_before_they_are_stored() {
    let mut s = fresh_state();
    match s.update(Message::AddHabit("  Morning Run  ".into())) {
        Effect::Write(DbWrite::AddHabit { name }, AfterWrite::ClearInput { .. }) => {
            assert_eq!(name, "Morning Run")
        }
        _ => panic!("expected a habit insert"),
    }
    match s.update(add_todo(" Buy milk ", Some("  "), None)) {
        Effect::Write(DbWrite::AddTodo { title, notes, due_date }, _) => {
            assert_eq!(title, "Buy milk");
            assert_eq!(notes.as_deref(), Some("  "));
            assert_eq!(due_date, None);
        }
        _ => panic!("expected a to-do insert"),
    }
}

#[test]
fn failed_writes_are_reported_and_successful_ones_reload() {
    let mut s = fresh_state();
    let eff = s.write_finished(AfterWrite::Reload, Err("disk full".into()));
    assert!(matches!(eff, Effect::Idle));
    assert_eq!(s.status_message.as_deref(), Some("Database error: disk full"));
    let eff = s.write_finished(AfterWrite::Reload, Ok(()));
    assert!(matches!(eff, Effect::Reload(AfterReload::Nothing)));
    let eff = s.write_finished(AfterWrite::Imported, Ok(()));
    assert!(matches!(eff, Effect::Reload(AfterReload::ReportImport)));
    let eff = s.write_finished(AfterWrite::Reorder(true), Ok(()));
    assert!(matches!(eff, Effect::Reload(AfterReload::AdjustAfterReorder(true))));
}

#[test]
fn a_saved_title_is_followed_by_saving_the_notes() {
    let mut s = fresh_state();
    let eff = s.write_finished(
        AfterWrite::TitleSaved { todo_id: 4, notes: Some("n".into()) },
        Ok(()),
    );
    match eff {
        Effect::Write(DbWrite::UpdateTodoNotes { todo_id, notes }, AfterWrite::EditFinished { clear_input }) => {
            assert_eq!(todo_id, 4);
            assert_eq!(notes.as_deref(), Some("n"));
            assert!(clear_input);
        }
        _ => panic!("expected the notes update"),
    }
}

#[test]
fn failed_reload_keeps_what_loaded_and_reports() {
    let mut s = fresh_state();
    let data = ReloadData {
        habits: Some(vec![(
            Habit {
                id: 1,
                name: "Read".into(),
                position: 0,
                created_at: "2026-09-01".into(),
                archived: false,
            },
            true,
        )]),
        todos: None,
        daily_stats_30_days: None,
        habit_success_days: None,
        monthly_heatmap: None,
        error: Some("no such table: todos".into()),
    };
    let eff = s.reload_finished(AfterReload::Nothing, data);
    assert!(matches!(eff, Effect::Idle));
    assert_eq!(s.habits.len(), 1);
    assert!(s.todos.is_empty());
    assert_eq!(s.status_message.as_deref(), Some("Database error: no such table: todos"));
}

#[test]
fn reload_clamps_the_cursor_and_reports_imports() {
    let mut s = fresh_state();
    s.selected_index = 0;
    s.reload_finished(AfterReload::ReportImport, empty_reload());
    assert_eq!(s.selected_index, 0);
    assert_eq!(s.status_message.as_deref(), Some("Data imported successfully"));
}

#[test]
fn export_outcomes_are_reported() {
    let mut s = fresh_state();
    s.export_finished(ExportOutcome::Saved("/home/u/Downloads/x.json".into()));
    assert_eq!(s.status_message.as_deref(), Some("Export saved to /home/u/Downloads/x.json"));
    s.export_finished(ExportOutcome::DatabaseFailed("locked".into()));
    assert_eq!(s.status_message.as_deref(), Some("Database error: locked"));
    s.export_finished(ExportOutcome::SerializeFailed("bad".into()));
    assert_eq!(s.status_message.as_deref(), Some("Export serialization error: bad"));
    s.export_finished(ExportOutcome::WriteFailed { primary: "a".into(), fallback: "b".into() });
    assert_eq!(s.status_message.as_deref(), Some("Failed to export data: a (fallback: b)"));
    s.update(Message::DataExported(Ok("p".into())));
    assert_eq!(s.status_message.as_deref(), Some("Export saved to p"));
    s.update(Message::DataExported(Err("e".into())));
    assert_eq!(s.status_message.as_deref(), Some("Export failed: e"));
}

#[test]
fn cancel_from_a_text_input_clears_both_buffers() {
    let mut s = fresh_state();
    s.update(Message::SetInputMode(InputMode::AddingTodo));
    s.update(Message::InputChanged("half typed".into()));
    s.update(Message::NotesChanged("notes".into()));
    s.update(Message::CancelModal);
    assert_eq!(s.input_mode, InputMode::Normal);
    assert!(s.input_buffer.is_empty());
    assert!(s.notes_buffer.is_empty());
}

#[test]
fn quit_and_init_name_their_work() {
    let mut s = fresh_state();
    assert!(matches!(s.update(Message::Quit), Effect::Quit));
    assert!(matches!(s.update(Message::Init), Effect::Reload(AfterReload::Nothing)));
    assert!(matches!(s.update(Message::Tick), Effect::Idle));
    assert!(matches!(s.update(Message::ExportData), Effect::Export));
}

#[test]
fn settings_cursor_stays_on_habits() {
    let mut app = setup_test_state();
    app.update(Message::AddHabit("A".into()));
    app.update(add_todo("T", None, None));
    app.update(Message::GoBottom);
    assert_eq!(app.state.selected_index, 1);
    app.update(Message::SwitchScreen(Screen::Settings));
    app.update(Message::GoBottom);
    assert_eq!(app.state.selected_index, 0);
    app.update(Message::ArchiveSelected);
    assert!(app.state.habits.is_empty());
    assert_eq!(app.state.selected_index, 0);
}

#[test]
fn editing_a_todo_saves_title_and_notes() {
    let mut app = setup_test_state();
    app.update(add_todo("Draft", Some("old"), None));
    app.state.selected_index = 0;
    app.update(Message::StartEdit);
    let id = app.state.todos[0].id;
    assert_eq!(app.state.input_mode, InputMode::EditingTodo(id));
    assert_eq!(app.state.input_buffer, "Draft");
    assert_eq!(app.state.notes_buffer, "old");
    app.update(Message::InputChanged("Final".into()));
    app.update(Message::NotesChanged("new".into()));
    app.update(Message::SubmitInput);
    assert_eq!(app.state.input_mode, InputMode::Normal);
    assert_eq!(app.state.todos[0].title, "Final");
    assert_eq!(app.state.todos[0].notes.as_deref(), Some("new"));
}

#[test]
fn renaming_a_habit_from_settings() {
    let mut app = setup_test_state();
    app.update(Message::SwitchScreen(Screen::Settings));
    app.update(Message::AddHabit("Old Name".into()));
    app.update(Message::StartRename);
    let id = app.state.habits[0].0.id;
    assert_eq!(app.state.input_mode, InputMode::RenamingHabit(id));
    assert_eq!(app.state.input_buffer, "Old Name");
    app.update(Message::InputChanged(" New Name ".into()));
    app.update(Message::SubmitInput);
    assert_eq!(app.state.habits[0].0.name, "New Name");
    assert_eq!(app.state.input_mode, InputMode::Normal);
}

#[test]
fn deleting_a_todo_waits_for_confirmation() {
    let mut app = setup_test_state();
    app.update(add_todo("Call dentist", None, None));
    let id = app.state.todos[0].id;
    app.state.selected_index = 0;
    assert!(matches!(app.state.update(Message::DeleteSelected), Effect::Idle));
    assert_eq!(app.state.todos.len(), 1);
    match app.state.update(Message::ConfirmDelete(id)) {
        Effect::Write(DbWrite::DeleteTodo { todo_id }, AfterWrite::CloseInput) => {
            assert_eq!(todo_id, id)
        }
        _ => panic!("expected the deletion"),
    }
}

#[test]
fn go_today_moves_to_the_given_date() {
    let mut s = fresh_state();
    let today = CalendarDate { year: 2027, month: 3, day: 14 };
    let eff = s.update_at(Message::GoToday, today);
    assert!(matches!(eff, Effect::Reload(AfterReload::Nothing)));
    assert_eq!(s.selected_date, today);
    let eff = s.update_at(Message::GoToday, today);
    assert!(matches!(eff, Effect::Idle));
    assert_eq!(s.selected_date, today);
    let eff = s.update_at(Message::NextDay, today);
    assert!(matches!(eff, Effect::Reload(AfterReload::Nothing)));
    assert_eq!(s.selected_date, CalendarDate { year: 2027, month: 3, day: 15 });
}

#[test]
fn reordering_keeps_the_cursor_on_the_moved_habit() {
    let mut app = setup_test_state();
    app.update(Message::SwitchScreen(Screen::Settings));
    for name in ["Alpha", "Beta", "Gamma"] {
        app.update(Message::AddHabit(name.into()));
    }
    app.state.selected_index = 1;
    let beta = app.state.habits[1].0.id;
    app.update(Message::ReorderSelected(false));
    assert_eq!(app.state.selected_index, 2);
    assert_eq!(app.state.habits[2].0.id, beta);
    app.update(Message::ReorderSelected(false));
    assert_eq!(app.state.selected_index, 2);
    assert_eq!(app.state.habits[2].0.id, beta);
    app.update(Message::ReorderSelected(true));
    app.update(Message::ReorderSelected(true));
    assert_eq!(app.state.selected_index, 0);
    assert_eq!(app.state.habits[0].0.id, beta);
    app.update(Message::ReorderSelected(true));
    assert_eq!(app.state.selected_index, 0);
    assert_eq!(app.state.habits[0].0.id, beta);
}

#[test]
fn complete_reload_replaces_every_list_and_clamps() {
    let mut s = fresh_state();
    s.selected_index = 5;
    let date = s.selected_date;
    let mut data = empty_reload();
    data.habits = Some(vec![(
        Habit { id: 9, name: "Walk".into(), position: 0, created_at: String::new(), archived: false },
        false,
    )]);
    data.habit_success_days = Some(vec![(9, 12)]);
    data.daily_stats_30_days = Some(vec![DailyStats::new(date, 1, 0)]);
    let mut heat = HashMap::new();
    heat.insert(date, 1usize);
    data.monthly_heatmap = Some(heat.clone());
    let eff = s.reload_finished(AfterReload::Nothing, data);
    assert!(matches!(eff, Effect::Idle));
    assert_eq!(s.habits.len(), 1);
    assert!(s.todos.is_empty());
    assert_eq!(s.habit_success_days, vec![(9, 12)]);
    assert_eq!(s.daily_stats_30_days.len(), 1);
    assert_eq!(s.monthly_heatmap, heat);
    assert_eq!(s.selected_date, date);
    assert_eq!(s.selected_index, 0);
    assert!(s.status_message.is_none());
}
