//! Application state, its transitions, and the storage work they request.
//!
//! The state machine never touches storage itself. A transition that needs
//! the database returns an [`Effect`]; the caller performs it and reports the
//! outcome back through [`AppState::write_finished`],
//! [`AppState::reload_finished`] or [`AppState::export_finished`].

use std::collections::HashMap;
use vstd::prelude::*;
use crate::app::message::Message;
use crate::calendar::{local_today, pred_opt, spec_pred, spec_succ, succ_opt, CalendarDate};
use crate::domain::{DailyStats, ExportData, Habit, Todo};
use crate::text::{lemma_trim_idempotent, spec_trim, trim};

verus! {

/// The active screen.
#[derive(Debug, Clone, Copy, PartialEq, Eq, Structural)]
pub enum Screen {
    /// Daily habits, to-dos and the metrics sidebar.
    Main,
    /// Habit management and backups.
    Settings,
}

impl Default for Screen {
    fn default() -> (r: Self)
        ensures
            r == Screen::Main,
    {
        Screen::Main
    }
}

/// The keyboard input mode.
#[derive(Debug, Clone, Copy, PartialEq, Eq, Structural)]
pub enum InputMode {
    /// Single-key shortcuts are active.
    Normal,
    /// Typing the title of a new to-do.
    AddingTodo,
    /// Editing the title (and notes) of this to-do.
    EditingTodo(i64),
    /// Editing the notes of this to-do.
    EditingNotes(i64),
    /// Typing the name of a new habit.
    AddingHabit,
    /// Renaming this habit.
    RenamingHabit(i64),
    /// Waiting for `[y/n]` before deleting this to-do.
    ConfirmDelete(i64),
}

impl Default for InputMode {
    fn default() -> (r: Self)
        ensures
            r == InputMode::Normal,
    {
        InputMode::Normal
    }
}

/// Text inputs that can receive keyboard focus.
#[derive(Debug, Clone, Copy, PartialEq, Eq, Structural)]
pub enum FocusTarget {
    TodoInput,
    HabitInput,
    EditTodoInput,
    EditNotesInput,
    RenameHabitInput,
}

/// A single storage mutation.
#[derive(Debug, Clone)]
pub enum DbWrite {
    ToggleHabit { habit_id: i64, date: CalendarDate },
    AddHabit { name: String },
    ArchiveHabit { habit_id: i64 },
    RenameHabit { habit_id: i64, name: String },
    ReorderHabit { habit_id: i64, move_up: bool },
    ToggleTodo { todo_id: i64 },
    AddTodo { title: String, notes: Option<String>, due_date: Option<CalendarDate> },
    DeleteTodo { todo_id: i64 },
    UpdateTodoNotes { todo_id: i64, notes: Option<String> },
    UpdateTodoTitle { todo_id: i64, title: String },
    ImportData(Box<ExportData>),
}

/// What the state machine does once a storage mutation has finished.
#[derive(Debug, Clone)]
pub enum AfterWrite {
    /// On success reload; on failure show the error.
    Reload,
    /// On success leave the input, clear the text input (and the notes input
    /// when asked) and reload; on failure show the error.
    ClearInput { clear_notes: bool },
    /// On success leave the input and reload; on failure show the error.
    CloseInput,
    /// On success leave the input, clear the notes input and reload; on
    /// failure show the error.
    NotesSaved,
    /// On success reload, then move the cursor with the habit; on failure
    /// show the error.
    Reorder(bool),
    /// On success reload and report the import; on failure show the error.
    Imported,
    /// Show a failure, then save these notes of the same to-do.
    TitleSaved { todo_id: i64, notes: Option<String> },
    /// Show a failure, then leave the input, clear the notes input (and the
    /// text input when asked) and reload.
    EditFinished { clear_input: bool },
}

/// What the state machine does once a reload has finished.
#[derive(Debug, Clone, Copy, PartialEq, Eq, Structural)]
pub enum AfterReload {
    Nothing,
    /// Report a completed import.
    ReportImport,
    /// Move the cursor along with a habit moved up (`true`) or down.
    AdjustAfterReorder(bool),
}

/// Work the caller performs on behalf of the state machine.
#[derive(Debug, Clone)]
pub enum Effect {
    /// Nothing to do.
    Idle,
    /// Terminate the application.
    Quit,
    /// Give keyboard focus to a text input.
    Focus(FocusTarget),
    /// Perform the mutation, then call `write_finished` with the outcome.
    Write(DbWrite, AfterWrite),
    /// Reload all data for the selected date, then call `reload_finished`.
    Reload(AfterReload),
    /// Export a JSON backup, then call `export_finished`.
    Export,
}

/// Data read back from storage for the selected date. The loads run in field
/// order and stop at the first failure: the fields loaded before it are
/// `Some`, and `error` holds the failure.
pub struct ReloadData {
    pub habits: Option<Vec<(Habit, bool)>>,
    pub todos: Option<Vec<Todo>>,
    pub daily_stats_30_days: Option<Vec<DailyStats>>,
    pub habit_success_days: Option<Vec<(i64, i64)>>,
    pub monthly_heatmap: Option<HashMap<CalendarDate, usize>>,
    pub error: Option<String>,
}

/// How a backup export ended.
pub enum ExportOutcome {
    /// Written to this path.
    Saved(String),
    /// Reading the database failed.
    DatabaseFailed(String),
    /// Serialising the backup failed.
    SerializeFailed(String),
    /// Writing failed at the target and at the fallback path.
    WriteFailed { primary: String, fallback: String },
}

/// Central application state: screen, selection, loaded data, input buffers
/// and status line.
pub struct AppState {
    /// Currently displayed screen.
    pub screen: Screen,
    /// Whether the metrics sidebar is open.
    pub sidebar_open: bool,
    /// Currently inspected calendar date.
    pub selected_date: CalendarDate,
    /// Cursor over the habits (and, on the Main screen, the to-dos after them).
    pub selected_index: usize,
    /// Active habits with their completion on `selected_date`.
    pub habits: Vec<(Habit, bool)>,
    /// All to-dos.
    pub todos: Vec<Todo>,
    /// Daily completion statistics of the 30 days up to `selected_date`.
    pub daily_stats_30_days: Vec<DailyStats>,
    /// Per habit id, the number of completed days in the 30 days ending on
    /// `selected_date`.
    pub habit_success_days: Vec<(i64, i64)>,
    /// Completion count per day of the month of `selected_date`.
    pub monthly_heatmap: HashMap<CalendarDate, usize>,
    /// Active keyboard input mode.
    pub input_mode: InputMode,
    /// Buffer of the main text input.
    pub input_buffer: String,
    /// Buffer of the notes input.
    pub notes_buffer: String,
    /// Status line message.
    pub status_message: Option<String>,
    /// Whether the shortcuts help overlay is visible.
    pub show_help: bool,
}

// ---------------------------------------------------------------------------
// Specification
// ---------------------------------------------------------------------------

/// Status text reported for a storage error.
pub open spec fn db_error_text(e: Seq<char>) -> Seq<char> {
    "Database error: "@ + e
}

/// Notice shown when deleting a habit is attempted on the Main screen.
pub open spec fn habit_delete_notice() -> Seq<char> {
    "Habits cannot be deleted from main view. Use Settings (o) to archive."@
}

/// Text of optional notes, empty when there are none.
pub open spec fn notes_text(n: Option<String>) -> Seq<char> {
    match n {
        Some(s) => s@,
        None => Seq::empty(),
    }
}

/// `n` is the optional form of the trimmed text `t`: absent when `t` is empty.
pub open spec fn optional_text(n: Option<String>, t: Seq<char>) -> bool {
    if t.len() == 0 {
        n is None
    } else {
        n matches Some(x) && x@ == t
    }
}

/// Position of the first to-do with this id.
pub open spec fn is_first_todo(todos: Seq<Todo>, id: i64, i: int) -> bool {
    &&& 0 <= i < todos.len()
    &&& todos[i].id == id
    &&& forall|k: int| 0 <= k < i ==> (#[trigger] todos[k]).id != id
}

pub open spec fn find_todo(todos: Seq<Todo>, id: i64) -> Option<int> {
    if exists|i: int| is_first_todo(todos, id, i) {
        Some(choose|i: int| is_first_todo(todos, id, i))
    } else {
        None
    }
}

/// Position of the first habit with this id.
pub open spec fn is_first_habit(habits: Seq<(Habit, bool)>, id: i64, i: int) -> bool {
    &&& 0 <= i < habits.len()
    &&& habits[i].0.id == id
    &&& forall|k: int| 0 <= k < i ==> (#[trigger] habits[k]).0.id != id
}

pub open spec fn find_habit(habits: Seq<(Habit, bool)>, id: i64) -> Option<int> {
    if exists|i: int| is_first_habit(habits, id, i) {
        Some(choose|i: int| is_first_habit(habits, id, i))
    } else {
        None
    }
}

impl AppState {
    /// Well-formedness: the selected date is a real day and the item count
    /// fits a machine word.
    pub open spec fn wf(self) -> bool {
        &&& self.selected_date.wf()
        &&& self.habits@.len() + self.todos@.len() <= usize::MAX
    }

    /// Number of items the cursor can select on the active screen.
    pub open spec fn total_items(self) -> int {
        match self.screen {
            Screen::Main => (self.habits@.len() + self.todos@.len()) as int,
            Screen::Settings => self.habits@.len() as int,
        }
    }

    /// The cursor points at an item, or is 0 when there is none.
    pub open spec fn index_in_bounds(self) -> bool {
        if self.total_items() == 0 {
            self.selected_index == 0
        } else {
            self.selected_index < self.total_items()
        }
    }

    /// The cursor moved back into `0..total_items` (0 when empty).
    pub open spec fn clamped_index(self) -> usize {
        if self.total_items() == 0 {
            0
        } else if self.selected_index >= self.total_items() {
            (self.total_items() - 1) as usize
        } else {
            self.selected_index
        }
    }

    /// Index into `todos` of the to-do under the cursor (Main screen only).
    pub open spec fn selected_todo_index(self) -> Option<int> {
        if self.screen == Screen::Main && self.selected_index >= self.habits@.len()
            && self.selected_index - self.habits@.len() < self.todos@.len() {
            Some(self.selected_index - self.habits@.len())
        } else {
            None
        }
    }

    /// The cursor is on a habit.
    pub open spec fn on_habit(self) -> bool {
        self.selected_index < self.habits@.len()
    }
}

/// `new` differs from `old` at most in the status message.
pub open spec fn only_status_changed(old: AppState, new: AppState) -> bool {
    new == (AppState { status_message: new.status_message, ..old })
}

/// `s` shows the status text `t`.
pub open spec fn shows_status(s: AppState, t: Seq<char>) -> bool {
    s.status_message matches Some(m) && m@ == t
}

/// `new` is `old` showing the status text `t`, with no further effect.
pub open spec fn reports(old: AppState, new: AppState, eff: Effect, t: Seq<char>) -> bool {
    only_status_changed(old, new) && shows_status(new, t) && eff is Idle
}

/// `new` is `old` with the input mode `mode` and empty text and notes inputs.
pub open spec fn cleared_inputs(old: AppState, new: AppState, mode: InputMode) -> bool {
    &&& new == (AppState {
        input_mode: mode,
        input_buffer: new.input_buffer,
        notes_buffer: new.notes_buffer,
        ..old
    })
    &&& new.input_buffer@.len() == 0
    &&& new.notes_buffer@.len() == 0
}

/// Requests toggling habit `id` on the selected date.
pub open spec fn toggle_habit_effect(old: AppState, id: i64) -> Effect {
    Effect::Write(
        DbWrite::ToggleHabit { habit_id: id, date: old.selected_date },
        AfterWrite::Reload,
    )
}

/// Requests toggling to-do `id`.
pub open spec fn toggle_todo_effect(id: i64) -> Effect {
    Effect::Write(DbWrite::ToggleTodo { todo_id: id }, AfterWrite::Reload)
}

/// Requests archiving habit `id`.
pub open spec fn archive_effect(id: i64) -> Effect {
    Effect::Write(DbWrite::ArchiveHabit { habit_id: id }, AfterWrite::Reload)
}

/// Requests moving habit `id`.
pub open spec fn reorder_effect(id: i64, up: bool) -> Effect {
    Effect::Write(DbWrite::ReorderHabit { habit_id: id, move_up: up }, AfterWrite::Reorder(up))
}

/// Requests deleting to-do `id`.
pub open spec fn delete_effect(id: i64) -> Effect {
    Effect::Write(DbWrite::DeleteTodo { todo_id: id }, AfterWrite::CloseInput)
}

/// Adding a habit named by `name`: ignored (back to Normal) when it trims to
/// nothing, otherwise the trimmed name is stored.
pub open spec fn add_habit_rel(old: AppState, new: AppState, eff: Effect, name: Seq<char>) -> bool {
    let t = spec_trim(name);
    if t.len() == 0 {
        new == (AppState { input_mode: InputMode::Normal, ..old }) && eff is Idle
    } else {
        new == old && (eff matches Effect::Write(
            DbWrite::AddHabit { name: n },
            AfterWrite::ClearInput { clear_notes: false },
        ) && n@ == t)
    }
}

/// Renaming habit `id` to `name`, on the same rule as adding.
pub open spec fn rename_habit_rel(
    old: AppState,
    new: AppState,
    eff: Effect,
    id: i64,
    name: Seq<char>,
) -> bool {
    let t = spec_trim(name);
    if t.len() == 0 {
        new == (AppState { input_mode: InputMode::Normal, ..old }) && eff is Idle
    } else {
        new == old && (eff matches Effect::Write(
            DbWrite::RenameHabit { habit_id: h, name: n },
            AfterWrite::ClearInput { clear_notes: false },
        ) && h == id && n@ == t)
    }
}

/// Adding a to-do titled `title`: ignored (back to Normal) when the title
/// trims to nothing, otherwise stored with the trimmed title.
pub open spec fn add_todo_rel(
    old: AppState,
    new: AppState,
    eff: Effect,
    title: Seq<char>,
    notes: Option<String>,
    due: Option<CalendarDate>,
) -> bool {
    let t = spec_trim(title);
    if t.len() == 0 {
        new == (AppState { input_mode: InputMode::Normal, ..old }) && eff is Idle
    } else {
        new == old && (eff matches Effect::Write(
            DbWrite::AddTodo { title: tt, notes: nn, due_date: dd },
            AfterWrite::ClearInput { clear_notes: true },
        ) && tt@ == t && nn == notes && dd == due)
    }
}

/// Saving the notes of to-do `id` from the text `notes` (empty when it trims
/// to nothing).
pub open spec fn update_notes_rel(
    old: AppState,
    new: AppState,
    eff: Effect,
    id: i64,
    notes: Seq<char>,
) -> bool {
    new == old && (eff matches Effect::Write(
        DbWrite::UpdateTodoNotes { todo_id: t, notes: n },
        AfterWrite::NotesSaved,
    ) && t == id && optional_text(n, spec_trim(notes)))
}

/// Toggling the item under the cursor (Main screen).
pub open spec fn toggle_selected_rel(old: AppState, new: AppState, eff: Effect) -> bool {
    new == old && if old.screen == Screen::Settings {
        eff is Idle
    } else if old.on_habit() {
        eff == toggle_habit_effect(old, old.habits@[old.selected_index as int].0.id)
    } else {
        match old.selected_todo_index() {
            Some(i) => eff == toggle_todo_effect(old.todos@[i].id),
            None => eff is Idle,
        }
    }
}

/// Completing the item under the cursor: toggles it when it is not done yet.
pub open spec fn complete_selected_rel(old: AppState, new: AppState, eff: Effect) -> bool {
    new == old && if old.screen == Screen::Settings {
        eff is Idle
    } else if old.on_habit() {
        let (h, done) = old.habits@[old.selected_index as int];
        if !done {
            eff == toggle_habit_effect(old, h.id)
        } else {
            eff is Idle
        }
    } else {
        match old.selected_todo_index() {
            Some(i) => if !old.todos@[i].completed {
                eff == toggle_todo_effect(old.todos@[i].id)
            } else {
                eff is Idle
            },
            None => eff is Idle,
        }
    }
}

/// Asking to delete the item under the cursor: habits are refused with a
/// notice, a to-do opens the confirmation.
pub open spec fn delete_selected_rel(old: AppState, new: AppState, eff: Effect) -> bool {
    if old.screen == Screen::Settings {
        new == old && eff is Idle
    } else if old.on_habit() {
        reports(old, new, eff, habit_delete_notice())
    } else {
        eff is Idle && match old.selected_todo_index() {
            Some(i) => new == (AppState {
                input_mode: InputMode::ConfirmDelete(old.todos@[i].id),
                ..old
            }),
            None => new == old,
        }
    }
}

/// Editing the item under the cursor: a to-do's title and notes on the Main
/// screen, a habit's name on the Settings screen.
pub open spec fn start_edit_rel(old: AppState, new: AppState, eff: Effect) -> bool {
    if old.screen == Screen::Main {
        match old.selected_todo_index() {
            Some(i) => {
                let t = old.todos@[i];
                &&& new == (AppState {
                    input_mode: InputMode::EditingTodo(t.id),
                    input_buffer: new.input_buffer,
                    notes_buffer: new.notes_buffer,
                    ..old
                })
                &&& new.input_buffer@ == t.title@
                &&& new.notes_buffer@ == notes_text(t.notes)
                &&& eff == Effect::Focus(FocusTarget::EditTodoInput)
            },
            None => new == old && eff is Idle,
        }
    } else {
        start_rename_rel(old, new, eff)
    }
}

/// Editing the notes of the to-do under the cursor.
pub open spec fn start_edit_notes_rel(old: AppState, new: AppState, eff: Effect) -> bool {
    match old.selected_todo_index() {
        Some(i) => {
            let t = old.todos@[i];
            &&& new == (AppState {
                input_mode: InputMode::EditingNotes(t.id),
                input_buffer: new.input_buffer,
                notes_buffer: new.notes_buffer,
                ..old
            })
            &&& new.input_buffer@.len() == 0
            &&& new.notes_buffer@ == notes_text(t.notes)
            &&& eff == Effect::Focus(FocusTarget::EditNotesInput)
        },
        None => new == old && eff is Idle,
    }
}

/// Renaming the habit under the cursor (Settings screen).
pub open spec fn start_rename_rel(old: AppState, new: AppState, eff: Effect) -> bool {
    if old.screen == Screen::Settings && old.on_habit() {
        let h = old.habits@[old.selected_index as int].0;
        &&& new == (AppState {
            input_mode: InputMode::RenamingHabit(h.id),
            input_buffer: new.input_buffer,
            ..old
        })
        &&& new.input_buffer@ == h.name@
        &&& eff == Effect::Focus(FocusTarget::RenameHabitInput)
    } else {
        new == old && eff is Idle
    }
}

/// Entering input mode `mode`, preparing the input buffers for it.
pub open spec fn set_input_mode_rel(old: AppState, new: AppState, eff: Effect, mode: InputMode) -> bool {
    match mode {
        InputMode::AddingTodo => cleared_inputs(old, new, mode) && eff == Effect::Focus(
            FocusTarget::TodoInput,
        ),
        InputMode::AddingHabit => cleared_inputs(old, new, mode) && eff == Effect::Focus(
            FocusTarget::HabitInput,
        ),
        InputMode::EditingTodo(id) => {
            &&& eff == Effect::Focus(FocusTarget::EditTodoInput)
            &&& match find_todo(old.todos@, id) {
                Some(i) => {
                    &&& new == (AppState {
                        input_mode: mode,
                        input_buffer: new.input_buffer,
                        notes_buffer: new.notes_buffer,
                        ..old
                    })
                    &&& new.input_buffer@ == old.todos@[i].title@
                    &&& new.notes_buffer@ == notes_text(old.todos@[i].notes)
                },
                None => new == (AppState { input_mode: mode, ..old }),
            }
        },
        InputMode::EditingNotes(id) => {
            &&& eff == Effect::Focus(FocusTarget::EditNotesInput)
            &&& match find_todo(old.todos@, id) {
                Some(i) => {
                    &&& new == (AppState {
                        input_mode: mode,
                        input_buffer: new.input_buffer,
                        notes_buffer: new.notes_buffer,
                        ..old
                    })
                    &&& new.input_buffer@.len() == 0
                    &&& new.notes_buffer@ == notes_text(old.todos@[i].notes)
                },
                None => new == (AppState { input_mode: mode, ..old }),
            }
        },
        InputMode::RenamingHabit(id) => {
            &&& eff == Effect::Focus(FocusTarget::RenameHabitInput)
            &&& match find_habit(old.habits@, id) {
                Some(i) => {
                    &&& new == (AppState { input_mode: mode, input_buffer: new.input_buffer, ..old })
                    &&& new.input_buffer@ == old.habits@[i].0.name@
                },
                None => new == (AppState { input_mode: mode, ..old }),
            }
        },
        _ => new == (AppState { input_mode: mode, ..old }) && eff is Idle,
    }
}

/// Dismissing, in order of precedence: an active input, the help overlay,
/// the Settings screen.
pub open spec fn cancel_modal_rel(old: AppState, new: AppState, eff: Effect) -> bool {
    &&& eff is Idle
    &&& if old.input_mode != InputMode::Normal {
        cleared_inputs(old, new, InputMode::Normal)
    } else if old.show_help {
        new == (AppState { show_help: false, ..old })
    } else if old.screen == Screen::Settings {
        new == (AppState { screen: Screen::Main, selected_index: 0, ..old })
    } else {
        new == old
    }
}

/// Committing the active text input.
pub open spec fn submit_input_rel(old: AppState, new: AppState, eff: Effect) -> bool {
    let t = spec_trim(old.input_buffer@);
    let nt = spec_trim(old.notes_buffer@);
    match old.input_mode {
        InputMode::AddingTodo => if t.len() == 0 {
            new == (AppState { input_mode: InputMode::Normal, ..old }) && eff is Idle
        } else {
            new == old && (eff matches Effect::Write(
                DbWrite::AddTodo { title: tt, notes: nn, due_date: dd },
                AfterWrite::ClearInput { clear_notes: true },
            ) && tt@ == t && optional_text(nn, nt) && dd is None)
        },
        InputMode::EditingTodo(id) => new == old && if t.len() > 0 {
            eff matches Effect::Write(
                DbWrite::UpdateTodoTitle { todo_id: a, title: tt },
                AfterWrite::TitleSaved { todo_id: b, notes: nn },
            ) && a == id && b == id && tt@ == t && optional_text(nn, nt)
        } else {
            eff matches Effect::Write(
                DbWrite::UpdateTodoNotes { todo_id: a, notes: nn },
                AfterWrite::EditFinished { clear_input: true },
            ) && a == id && optional_text(nn, nt)
        },
        InputMode::EditingNotes(id) => new == old && (eff matches Effect::Write(
            DbWrite::UpdateTodoNotes { todo_id: a, notes: nn },
            AfterWrite::EditFinished { clear_input: false },
        ) && a == id && optional_text(nn, nt)),
        InputMode::AddingHabit => add_habit_rel(old, new, eff, old.input_buffer@),
        InputMode::RenamingHabit(id) => rename_habit_rel(old, new, eff, id, old.input_buffer@),
        InputMode::ConfirmDelete(id) => new == old && eff == delete_effect(id),
        InputMode::Normal => new == old && eff is Idle,
    }
}

/// The transition taken on message `m` from `old` to `new`, requesting
/// `eff`; `today` is the local date read by `GoToday`.
pub open spec fn update_rel(
    old: AppState,
    new: AppState,
    m: Message,
    eff: Effect,
    today: CalendarDate,
) -> bool {
    match m {
        Message::NavigateUp => eff is Idle && new == (AppState {
            selected_index: if old.selected_index > 0 {
                (old.selected_index - 1) as usize
            } else {
                old.selected_index
            },
            ..old
        }),
        Message::NavigateDown => eff is Idle && new == (AppState {
            selected_index: if old.total_items() > 0 && old.selected_index + 1
                < old.total_items() {
                (old.selected_index + 1) as usize
            } else {
                old.selected_index
            },
            ..old
        }),
        Message::PreviousDay => match spec_pred(old.selected_date) {
            Some(p) => new == (AppState { selected_date: p, ..old }) && eff == Effect::Reload(
                AfterReload::Nothing,
            ),
            None => new == old && eff is Idle,
        },
        Message::NextDay => match spec_succ(old.selected_date) {
            Some(n) => new == (AppState { selected_date: n, ..old }) && eff == Effect::Reload(
                AfterReload::Nothing,
            ),
            None => new == old && eff is Idle,
        },
        Message::GoToday => if old.selected_date != today {
            new == (AppState { selected_date: today, ..old }) && eff == Effect::Reload(
                AfterReload::Nothing,
            )
        } else {
            new == old && eff is Idle
        },
        Message::GoTop => eff is Idle && new == (AppState { selected_index: 0, ..old }),
        Message::GoBottom => eff is Idle && new == (AppState {
            selected_index: if old.total_items() > 0 {
                (old.total_items() - 1) as usize
            } else {
                0
            },
            ..old
        }),
        Message::ToggleSidebar => eff is Idle && new == (AppState {
            sidebar_open: !old.sidebar_open,
            ..old
        }),
        Message::SwitchScreen(screen) => eff is Idle && new == (AppState {
            screen,
            selected_index: 0,
            ..old
        }),
        Message::OpenSettings => eff is Idle && new == (AppState {
            screen: Screen::Settings,
            selected_index: 0,
            ..old
        }),
        Message::CloseSettings => eff is Idle && new == (AppState {
            screen: Screen::Main,
            selected_index: 0,
            ..old
        }),
        Message::ToggleHelp => eff is Idle && new == (AppState { show_help: !old.show_help, ..old }),
        Message::Quit => new == old && eff is Quit,
        Message::ToggleHabit(id) => new == old && eff == toggle_habit_effect(old, id),
        Message::AddHabit(name) => add_habit_rel(old, new, eff, name@),
        Message::ArchiveHabit(id) => new == old && eff == archive_effect(id),
        Message::RenameHabit(id, name) => rename_habit_rel(old, new, eff, id, name@),
        Message::ReorderHabit(id, up) => new == old && eff == reorder_effect(id, up),
        Message::ToggleTodo(id) => new == old && eff == toggle_todo_effect(id),
        Message::AddTodo { title, notes, due_date } => add_todo_rel(
            old,
            new,
            eff,
            title@,
            notes,
            due_date,
        ),
        Message::DeleteTodo(id) => new == old && eff == delete_effect(id),
        Message::UpdateTodoNotes(id, notes) => update_notes_rel(old, new, eff, id, notes@),
        Message::ToggleSelected => toggle_selected_rel(old, new, eff),
        Message::CompleteSelected => complete_selected_rel(old, new, eff),
        Message::DeleteSelected => delete_selected_rel(old, new, eff),
        Message::ArchiveSelected => new == old && if old.screen == Screen::Settings
            && old.on_habit() {
            eff == archive_effect(old.habits@[old.selected_index as int].0.id)
        } else {
            eff is Idle
        },
        Message::ReorderSelected(up) => new == old && if old.screen == Screen::Settings
            && old.on_habit() {
            eff == reorder_effect(old.habits@[old.selected_index as int].0.id, up)
        } else {
            eff is Idle
        },
        Message::StartEdit => start_edit_rel(old, new, eff),
        Message::StartEditNotes => start_edit_notes_rel(old, new, eff),
        Message::StartRename => start_rename_rel(old, new, eff),
        Message::ExportData => new == old && eff is Export,
        Message::ImportData(data) => new == old && (eff matches Effect::Write(
            DbWrite::ImportData(d),
            AfterWrite::Imported,
        ) && d == data),
        Message::DataExported(result) => match result {
            Ok(path) => reports(old, new, eff, "Export saved to "@ + path@),
            Err(e) => reports(old, new, eff, "Export failed: "@ + e@),
        },
        Message::SetInputMode(mode) => set_input_mode_rel(old, new, eff, mode),
        Message::InputChanged(v) => eff is Idle && new == (AppState { input_buffer: v, ..old }),
        Message::NotesChanged(v) => eff is Idle && new == (AppState { notes_buffer: v, ..old }),
        Message::DueDateChanged(_) => new == old && eff is Idle,
        Message::ConfirmDelete(id) => new == old && eff == delete_effect(id),
        Message::CancelModal => cancel_modal_rel(old, new, eff),
        Message::SubmitInput => submit_input_rel(old, new, eff),
        Message::DbError(e) => reports(old, new, eff, db_error_text(e@)),
        Message::ClearStatusMessage => eff is Idle && new == (AppState {
            status_message: None,
            ..old
        }),
        Message::Init => new == old && eff == Effect::Reload(AfterReload::Nothing),
        Message::Tick => new == old && eff is Idle,
    }
}


/// The transition taken when the storage mutation requested with the
/// continuation `then` has finished with `result`.
pub open spec fn write_finished_rel(
    old: AppState,
    new: AppState,
    then: AfterWrite,
    result: Result<(), String>,
    eff: Effect,
) -> bool {
    match then {
        AfterWrite::TitleSaved { todo_id, notes } => {
            &&& match result {
                Ok(_) => new == old,
                Err(e) => only_status_changed(old, new) && shows_status(new, db_error_text(e@)),
            }
            &&& (eff matches Effect::Write(
                DbWrite::UpdateTodoNotes { todo_id: a, notes: n },
                AfterWrite::EditFinished { clear_input: true },
            ) && a == todo_id && n == notes)
        },
        AfterWrite::EditFinished { clear_input } => {
            &&& new == (AppState {
                input_mode: InputMode::Normal,
                input_buffer: new.input_buffer,
                notes_buffer: new.notes_buffer,
                status_message: new.status_message,
                ..old
            })
            &&& new.notes_buffer@.len() == 0
            &&& if clear_input {
                new.input_buffer@.len() == 0
            } else {
                new.input_buffer == old.input_buffer
            }
            &&& match result {
                Ok(_) => new.status_message == old.status_message,
                Err(e) => shows_status(new, db_error_text(e@)),
            }
            &&& eff == Effect::Reload(AfterReload::Nothing)
        },
        _ => match result {
            Err(e) => reports(old, new, eff, db_error_text(e@)),
            Ok(_) => match then {
                AfterWrite::Reload => new == old && eff == Effect::Reload(AfterReload::Nothing),
                AfterWrite::ClearInput { clear_notes } => {
                    &&& new == (AppState {
                        input_mode: InputMode::Normal,
                        input_buffer: new.input_buffer,
                        notes_buffer: new.notes_buffer,
                        ..old
                    })
                    &&& new.input_buffer@.len() == 0
                    &&& if clear_notes {
                        new.notes_buffer@.len() == 0
                    } else {
                        new.notes_buffer == old.notes_buffer
                    }
                    &&& eff == Effect::Reload(AfterReload::Nothing)
                },
                AfterWrite::CloseInput => new == (AppState {
                    input_mode: InputMode::Normal,
                    ..old
                }) && eff == Effect::Reload(AfterReload::Nothing),
                AfterWrite::NotesSaved => {
                    &&& new == (AppState {
                        input_mode: InputMode::Normal,
                        notes_buffer: new.notes_buffer,
                        ..old
                    })
                    &&& new.notes_buffer@.len() == 0
                    &&& eff == Effect::Reload(AfterReload::Nothing)
                },
                AfterWrite::Reorder(up) => new == old && eff == Effect::Reload(
                    AfterReload::AdjustAfterReorder(up),
                ),
                AfterWrite::Imported => new == old && eff == Effect::Reload(
                    AfterReload::ReportImport,
                ),
                _ => false,
            },
        },
    }
}

/// `old` with every part of the data that the reload produced.
pub open spec fn loaded(old: AppState, data: ReloadData) -> AppState {
    AppState {
        habits: match data.habits {
            Some(h) => h,
            None => old.habits,
        },
        todos: match data.todos {
            Some(t) => t,
            None => old.todos,
        },
        daily_stats_30_days: match data.daily_stats_30_days {
            Some(d) => d,
            None => old.daily_stats_30_days,
        },
        habit_success_days: match data.habit_success_days {
            Some(r) => r,
            None => old.habit_success_days,
        },
        monthly_heatmap: match data.monthly_heatmap {
            Some(m) => m,
            None => old.monthly_heatmap,
        },
        ..old
    }
}

/// Cursor after a reload, following a moved habit when asked to.
pub open spec fn index_after_reload(s: AppState, then: AfterReload) -> int {
    match then {
        AfterReload::AdjustAfterReorder(up) => if up {
            if s.selected_index > 0 {
                s.selected_index - 1
            } else {
                s.selected_index as int
            }
        } else if s.selected_index + 1 < s.habits@.len() {
            s.selected_index + 1
        } else {
            s.selected_index as int
        },
        _ => s.selected_index as int,
    }
}

/// The transition taken when a reload requested with continuation `then`
/// delivered `data`: the loaded parts replace the old ones; a complete
/// reload brings the cursor back within bounds, a failed one is reported.
pub open spec fn reload_finished_rel(
    old: AppState,
    new: AppState,
    then: AfterReload,
    data: ReloadData,
    eff: Effect,
) -> bool {
    let l = loaded(old, data);
    let settled = if data.error is None {
        AppState { selected_index: l.clamped_index(), ..l }
    } else {
        l
    };
    &&& new == (AppState {
        selected_index: index_after_reload(settled, then) as usize,
        status_message: new.status_message,
        ..settled
    })
    &&& match data.error {
        Some(e) => shows_status(new, db_error_text(e@)),
        None => if then == AfterReload::ReportImport {
            shows_status(new, "Data imported successfully"@)
        } else {
            new.status_message == old.status_message
        },
    }
    &&& eff is Idle
}

/// Status text reporting how an export ended.
pub open spec fn export_text(o: ExportOutcome) -> Seq<char> {
    match o {
        ExportOutcome::Saved(path) => "Export saved to "@ + path@,
        ExportOutcome::DatabaseFailed(e) => db_error_text(e@),
        ExportOutcome::SerializeFailed(e) => "Export serialization error: "@ + e@,
        ExportOutcome::WriteFailed { primary, fallback } => "Failed to export data: "@ + primary@
            + " (fallback: "@ + fallback@ + ")"@,
    }
}

// ---------------------------------------------------------------------------
// Implementation
// ---------------------------------------------------------------------------

/// Owned copy of a string slice.
fn owned(s: &str) -> (r: String)
    ensures
        r@ == s@,
{
    String::from_str(s)
}

/// `prefix` followed by `rest`.
fn joined(prefix: &str, rest: &str) -> (r: String)
    ensures
        r@ == prefix@ + rest@,
{
    String::from_str(prefix).concat(rest)
}

/// Text of optional notes as an owned string (empty when absent).
fn notes_string(n: &Option<String>) -> (r: String)
    ensures
        r@ == notes_text(*n),
{
    match n {
        Some(s) => s.clone(),
        None => String::new(),
    }
}

/// The trimmed text, absent when it is empty.
fn optional_trimmed(s: &str) -> (r: Option<String>)
    ensures
        optional_text(r, spec_trim(s@)),
{
    let t = trim(s);
    if t.unicode_len() == 0 {
        None
    } else {
        Some(owned(t))
    }
}

fn find_todo_index(todos: &Vec<Todo>, id: i64) -> (r: Option<usize>)
    ensures
        r is None <==> find_todo(todos@, id) is None,
        r matches Some(k) ==> k < todos@.len() && find_todo(todos@, id) == Some(k as int),
{
    let mut k: usize = 0;
    while k < todos.len()
        invariant
            k <= todos.len(),
            forall|m: int| 0 <= m < k ==> (#[trigger] todos@[m]).id != id,
        decreases todos.len() - k,
    {
        if todos[k].id == id {
            assert(is_first_todo(todos@, id, k as int));
            let ghost c = choose|i: int| is_first_todo(todos@, id, i);
            assert(c == k) by {
                if c < k {
                    assert(todos@[c].id != id);
                }
                if c > k {
                    assert(todos@[k as int].id != id);
                }
            }
            return Some(k);
        }
        k = k + 1;
    }
    assert(!exists|i: int| is_first_todo(todos@, id, i));
    None
}

fn find_habit_index(habits: &Vec<(Habit, bool)>, id: i64) -> (r: Option<usize>)
    ensures
        r is None <==> find_habit(habits@, id) is None,
        r matches Some(k) ==> k < habits@.len() && find_habit(habits@, id) == Some(k as int),
{
    let mut k: usize = 0;
    while k < habits.len()
        invariant
            k <= habits.len(),
            forall|m: int| 0 <= m < k ==> (#[trigger] habits@[m]).0.id != id,
        decreases habits.len() - k,
    {
        if habits[k].0.id == id {
            assert(is_first_habit(habits@, id, k as int));
            let ghost c = choose|i: int| is_first_habit(habits@, id, i);
            assert(c == k) by {
                if c < k {
                    assert(habits@[c].0.id != id);
                }
                if c > k {
                    assert(habits@[k as int].0.id != id);
                }
            }
            return Some(k);
        }
        k = k + 1;
    }
    assert(!exists|i: int| is_first_habit(habits@, id, i));
    None
}

impl AppState {
    /// State right after start-up: Main screen, sidebar open, cursor at the
    /// top, Normal input mode, no status message, showing `today` with the
    /// given data.
    pub fn new(
        today: CalendarDate,
        habits: Vec<(Habit, bool)>,
        todos: Vec<Todo>,
        daily_stats_30_days: Vec<DailyStats>,
        habit_success_days: Vec<(i64, i64)>,
        monthly_heatmap: HashMap<CalendarDate, usize>,
    ) -> (r: Self)
        ensures
            r.screen == Screen::Main,
            r.sidebar_open,
            r.selected_date == today,
            r.selected_index == 0,
            r.habits == habits,
            r.todos == todos,
            r.daily_stats_30_days == daily_stats_30_days,
            r.habit_success_days == habit_success_days,
            r.monthly_heatmap == monthly_heatmap,
            r.input_mode == InputMode::Normal,
            r.input_buffer@.len() == 0,
            r.notes_buffer@.len() == 0,
            r.status_message is None,
            !r.show_help,
    {
        AppState {
            screen: Screen::Main,
            sidebar_open: true,
            selected_date: today,
            selected_index: 0,
            habits,
            todos,
            daily_stats_30_days,
            habit_success_days,
            monthly_heatmap,
            input_mode: InputMode::Normal,
            input_buffer: String::new(),
            notes_buffer: String::new(),
            status_message: None,
            show_help: false,
        }
    }

    /// Number of selectable items on the active screen: habits and to-dos on
    /// the Main screen, habits on the Settings screen.
    pub fn total_items_for_screen(&self) -> (r: usize)
        requires
            self.wf(),
        ensures
            r == self.total_items(),
    {
        match self.screen {
            Screen::Main => self.habits.len() + self.todos.len(),
            Screen::Settings => self.habits.len(),
        }
    }

    /// Moves the cursor back within `0..total_items` (to 0 when empty).
    pub fn clamp_selected_index(&mut self)
        requires
            old(self).wf(),
        ensures
            *final(self) == (AppState { selected_index: old(self).clamped_index(), ..*old(self) }),
    {
        let total = self.total_items_for_screen();
        if total == 0 {
            self.selected_index = 0;
        } else if self.selected_index >= total {
            self.selected_index = total - 1;
        }
    }

    /// The habit under the cursor, if the cursor is on a habit.
    pub fn selected_habit(&self) -> (r: Option<&(Habit, bool)>)
        ensures
            match r {
                Some(h) => self.on_habit() && *h == self.habits@[self.selected_index as int],
                None => !self.on_habit(),
            },
    {
        if self.selected_index < self.habits.len() {
            Some(&self.habits[self.selected_index])
        } else {
            None
        }
    }

    /// The to-do under the cursor, if the Main screen's cursor is on a to-do.
    pub fn selected_todo(&self) -> (r: Option<&Todo>)
        ensures
            match self.selected_todo_index() {
                Some(i) => r matches Some(t) && *t == self.todos@[i],
                None => r is None,
            },
    {
        match self.screen {
            Screen::Main => {
                if self.selected_index >= self.habits.len() {
                    let todo_idx = self.selected_index - self.habits.len();
                    if todo_idx < self.todos.len() {
                        Some(&self.todos[todo_idx])
                    } else {
                        None
                    }
                } else {
                    None
                }
            },
            Screen::Settings => None,
        }
    }

    fn show_status(&mut self, text: String)
        ensures
            *final(self) == (AppState { status_message: Some(text), ..*old(self) }),
    {
        self.status_message = Some(text);
    }

    fn add_habit(&mut self, name: String) -> (eff: Effect)
        ensures
            add_habit_rel(*old(self), *final(self), eff, name@),
    {
        let t = trim(name.as_str());
        if t.unicode_len() == 0 {
            self.input_mode = InputMode::Normal;
            return Effect::Idle;
        }
        Effect::Write(
            DbWrite::AddHabit { name: owned(t) },
            AfterWrite::ClearInput { clear_notes: false },
        )
    }

    fn rename_habit(&mut self, id: i64, name: String) -> (eff: Effect)
        ensures
            rename_habit_rel(*old(self), *final(self), eff, id, name@),
    {
        let t = trim(name.as_str());
        if t.unicode_len() == 0 {
            self.input_mode = InputMode::Normal;
            return Effect::Idle;
        }
        Effect::Write(
            DbWrite::RenameHabit { habit_id: id, name: owned(t) },
            AfterWrite::ClearInput { clear_notes: false },
        )
    }

    fn add_todo(&mut self, title: String, notes: Option<String>, due_date: Option<CalendarDate>) -> (eff: Effect)
        ensures
            add_todo_rel(*old(self), *final(self), eff, title@, notes, due_date),
    {
        let t = trim(title.as_str());
        if t.unicode_len() == 0 {
            self.input_mode = InputMode::Normal;
            return Effect::Idle;
        }
        Effect::Write(
            DbWrite::AddTodo { title: owned(t), notes, due_date },
            AfterWrite::ClearInput { clear_notes: true },
        )
    }

    fn toggle_selected(&self) -> (eff: Effect)
        ensures
            toggle_selected_rel(*self, *self, eff),
    {
        match self.screen {
            Screen::Main => {
                if self.selected_index < self.habits.len() {
                    Effect::Write(
                        DbWrite::ToggleHabit {
                            habit_id: self.habits[self.selected_index].0.id,
                            date: self.selected_date,
                        },
                        AfterWrite::Reload,
                    )
                } else {
                    let todo_idx = self.selected_index - self.habits.len();
                    if todo_idx < self.todos.len() {
                        Effect::Write(
                            DbWrite::ToggleTodo { todo_id: self.todos[todo_idx].id },
                            AfterWrite::Reload,
                        )
                    } else {
                        Effect::Idle
                    }
                }
            },
            Screen::Settings => Effect::Idle,
        }
    }

    fn complete_selected(&self) -> (eff: Effect)
        ensures
            complete_selected_rel(*self, *self, eff),
    {
        match self.screen {
            Screen::Main => {
                if self.selected_index < self.habits.len() {
                    let entry = &self.habits[self.selected_index];
                    if !entry.1 {
                        Effect::Write(
                            DbWrite::ToggleHabit { habit_id: entry.0.id, date: self.selected_date },
                            AfterWrite::Reload,
                        )
                    } else {
                        Effect::Idle
                    }
                } else {
                    let todo_idx = self.selected_index - self.habits.len();
                    if todo_idx < self.todos.len() {
                        let todo = &self.todos[todo_idx];
                        if !todo.completed {
                            Effect::Write(
                                DbWrite::ToggleTodo { todo_id: todo.id },
                                AfterWrite::Reload,
                            )
                        } else {
                            Effect::Idle
                        }
                    } else {
                        Effect::Idle
                    }
                }
            },
            Screen::Settings => Effect::Idle,
        }
    }

    fn delete_selected(&mut self) -> (eff: Effect)
        ensures
            delete_selected_rel(*old(self), *final(self), eff),
    {
        match self.screen {
            Screen::Main => {
                if self.selected_index < self.habits.len() {
                    self.show_status(
                        owned(
                            "Habits cannot be deleted from main view. Use Settings (o) to archive.",
                        ),
                    );
                } else {
                    let todo_idx = self.selected_index - self.habits.len();
                    if todo_idx < self.todos.len() {
                        self.input_mode = InputMode::ConfirmDelete(self.todos[todo_idx].id);
                    }
                }
                Effect::Idle
            },
            Screen::Settings => Effect::Idle,
        }
    }

    fn start_rename(&mut self) -> (eff: Effect)
        ensures
            start_rename_rel(*old(self), *final(self), eff),
    {
        if self.screen == Screen::Settings && self.selected_index < self.habits.len() {
            let id = self.habits[self.selected_index].0.id;
            let name = self.habits[self.selected_index].0.name.clone();
            self.input_mode = InputMode::RenamingHabit(id);
            self.input_buffer = name;
            return Effect::Focus(FocusTarget::RenameHabitInput);
        }
        Effect::Idle
    }

    fn start_edit(&mut self) -> (eff: Effect)
        ensures
            start_edit_rel(*old(self), *final(self), eff),
    {
        match self.screen {
            Screen::Main => {
                if self.selected_index >= self.habits.len() {
                    let todo_idx = self.selected_index - self.habits.len();
                    if todo_idx < self.todos.len() {
                        let id = self.todos[todo_idx].id;
                        let title = self.todos[todo_idx].title.clone();
                        let notes = notes_string(&self.todos[todo_idx].notes);
                        self.input_mode = InputMode::EditingTodo(id);
                        self.input_buffer = title;
                        self.notes_buffer = notes;
                        return Effect::Focus(FocusTarget::EditTodoInput);
                    }
                }
                Effect::Idle
            },
            Screen::Settings => self.start_rename(),
        }
    }

    fn start_edit_notes(&mut self) -> (eff: Effect)
        ensures
            start_edit_notes_rel(*old(self), *final(self), eff),
    {
        if self.screen == Screen::Main && self.selected_index >= self.habits.len() {
            let todo_idx = self.selected_index - self.habits.len();
            if todo_idx < self.todos.len() {
                let id = self.todos[todo_idx].id;
                let notes = notes_string(&self.todos[todo_idx].notes);
                self.input_mode = InputMode::EditingNotes(id);
                self.notes_buffer = notes;
                self.input_buffer = String::new();
                return Effect::Focus(FocusTarget::EditNotesInput);
            }
        }
        Effect::Idle
    }

    fn set_input_mode(&mut self, mode: InputMode) -> (eff: Effect)
        ensures
            set_input_mode_rel(*old(self), *final(self), eff, mode),
    {
        let eff = match mode {
            InputMode::AddingTodo => {
                self.input_buffer = String::new();
                self.notes_buffer = String::new();
                Effect::Focus(FocusTarget::TodoInput)
            },
            InputMode::AddingHabit => {
                self.input_buffer = String::new();
                self.notes_buffer = String::new();
                Effect::Focus(FocusTarget::HabitInput)
            },
            InputMode::EditingTodo(id) => {
                if let Some(i) = find_todo_index(&self.todos, id) {
                    let title = self.todos[i].title.clone();
                    let notes = notes_string(&self.todos[i].notes);
                    self.input_buffer = title;
                    self.notes_buffer = notes;
                }
                Effect::Focus(FocusTarget::EditTodoInput)
            },
            InputMode::EditingNotes(id) => {
                if let Some(i) = find_todo_index(&self.todos, id) {
                    let notes = notes_string(&self.todos[i].notes);
                    self.notes_buffer = notes;
                    self.input_buffer = String::new();
                }
                Effect::Focus(FocusTarget::EditNotesInput)
            },
            InputMode::RenamingHabit(id) => {
                if let Some(i) = find_habit_index(&self.habits, id) {
                    let name = self.habits[i].0.name.clone();
                    self.input_buffer = name;
                }
                Effect::Focus(FocusTarget::RenameHabitInput)
            },
            InputMode::Normal | InputMode::ConfirmDelete(_) => Effect::Idle,
        };
        self.input_mode = mode;
        eff
    }

    fn cancel_modal(&mut self) -> (eff: Effect)
        ensures
            cancel_modal_rel(*old(self), *final(self), eff),
    {
        if self.input_mode != InputMode::Normal {
            self.input_mode = InputMode::Normal;
            self.input_buffer = String::new();
            self.notes_buffer = String::new();
        } else if self.show_help {
            self.show_help = false;
        } else if self.screen == Screen::Settings {
            self.screen = Screen::Main;
            self.selected_index = 0;
        }
        Effect::Idle
    }

    fn submit_input(&mut self) -> (eff: Effect)
        ensures
            submit_input_rel(*old(self), *final(self), eff),
    {
        match self.input_mode {
            InputMode::AddingTodo => {
                let title = owned(trim(self.input_buffer.as_str()));
                let notes = optional_trimmed(self.notes_buffer.as_str());
                if title.as_str().unicode_len() > 0 {
                    proof {
                        lemma_trim_idempotent(self.input_buffer@);
                    }
                    self.add_todo(title, notes, None)
                } else {
                    self.input_mode = InputMode::Normal;
                    Effect::Idle
                }
            },
            InputMode::EditingTodo(id) => {
                let title = owned(trim(self.input_buffer.as_str()));
                let notes = optional_trimmed(self.notes_buffer.as_str());
                if title.as_str().unicode_len() > 0 {
                    Effect::Write(
                        DbWrite::UpdateTodoTitle { todo_id: id, title },
                        AfterWrite::TitleSaved { todo_id: id, notes },
                    )
                } else {
                    Effect::Write(
                        DbWrite::UpdateTodoNotes { todo_id: id, notes },
                        AfterWrite::EditFinished { clear_input: true },
                    )
                }
            },
            InputMode::EditingNotes(id) => {
                let notes = optional_trimmed(self.notes_buffer.as_str());
                Effect::Write(
                    DbWrite::UpdateTodoNotes { todo_id: id, notes },
                    AfterWrite::EditFinished { clear_input: false },
                )
            },
            InputMode::AddingHabit => {
                let name = owned(trim(self.input_buffer.as_str()));
                if name.as_str().unicode_len() > 0 {
                    proof {
                        lemma_trim_idempotent(self.input_buffer@);
                    }
                    self.add_habit(name)
                } else {
                    self.input_mode = InputMode::Normal;
                    Effect::Idle
                }
            },
            InputMode::RenamingHabit(id) => {
                let name = owned(trim(self.input_buffer.as_str()));
                if name.as_str().unicode_len() > 0 {
                    proof {
                        lemma_trim_idempotent(self.input_buffer@);
                    }
                    self.rename_habit(id, name)
                } else {
                    self.input_mode = InputMode::Normal;
                    Effect::Idle
                }
            },
            InputMode::ConfirmDelete(id) => Effect::Write(
                DbWrite::DeleteTodo { todo_id: id },
                AfterWrite::CloseInput,
            ),
            InputMode::Normal => Effect::Idle,
        }
    }

    /// Continues after a storage mutation finished with `result`: shows a
    /// failure, resets the input the mutation came from, and asks for the
    /// reload or the follow-up mutation named by `then`.
    pub fn write_finished(&mut self, then: AfterWrite, result: Result<(), String>) -> (eff: Effect)
        requires
            old(self).wf(),
        ensures
            final(self).wf(),
            write_finished_rel(*old(self), *final(self), then, result, eff),
    {
        match then {
            AfterWrite::TitleSaved { todo_id, notes } => {
                if let Err(e) = result {
                    self.show_status(joined("Database error: ", e.as_str()));
                }
                Effect::Write(
                    DbWrite::UpdateTodoNotes { todo_id, notes },
                    AfterWrite::EditFinished { clear_input: true },
                )
            },
            AfterWrite::EditFinished { clear_input } => {
                if let Err(e) = result {
                    self.show_status(joined("Database error: ", e.as_str()));
                }
                self.input_mode = InputMode::Normal;
                if clear_input {
                    self.input_buffer = String::new();
                }
                self.notes_buffer = String::new();
                Effect::Reload(AfterReload::Nothing)
            },
            _ => match result {
                Err(e) => {
                    self.show_status(joined("Database error: ", e.as_str()));
                    Effect::Idle
                },
                Ok(()) => match then {
                    AfterWrite::Reload => Effect::Reload(AfterReload::Nothing),
                    AfterWrite::ClearInput { clear_notes } => {
                        self.input_mode = InputMode::Normal;
                        self.input_buffer = String::new();
                        if clear_notes {
                            self.notes_buffer = String::new();
                        }
                        Effect::Reload(AfterReload::Nothing)
                    },
                    AfterWrite::CloseInput => {
                        self.input_mode = InputMode::Normal;
                        Effect::Reload(AfterReload::Nothing)
                    },
                    AfterWrite::NotesSaved => {
                        self.input_mode = InputMode::Normal;
                        self.notes_buffer = String::new();
                        Effect::Reload(AfterReload::Nothing)
                    },
                    AfterWrite::Reorder(up) => Effect::Reload(AfterReload::AdjustAfterReorder(up)),
                    AfterWrite::Imported => Effect::Reload(AfterReload::ReportImport),
                    AfterWrite::TitleSaved { .. } => Effect::Idle,
                    AfterWrite::EditFinished { .. } => Effect::Idle,
                },
            },
        }
    }

    /// Continues after a reload for the selected date delivered `data`.
    pub fn reload_finished(&mut self, then: AfterReload, data: ReloadData) -> (eff: Effect)
        requires
            old(self).wf(),
            loaded(*old(self), data).habits@.len() + loaded(*old(self), data).todos@.len()
                <= usize::MAX,
        ensures
            final(self).wf(),
            reload_finished_rel(*old(self), *final(self), then, data, eff),
    {
        let ghost data0 = data;
        let ReloadData {
            habits,
            todos,
            daily_stats_30_days,
            habit_success_days,
            monthly_heatmap,
            error,
        } = data;
        if let Some(h) = habits {
            self.habits = h;
        }
        if let Some(t) = todos {
            self.todos = t;
        }
        if let Some(d) = daily_stats_30_days {
            self.daily_stats_30_days = d;
        }
        if let Some(r) = habit_success_days {
            self.habit_success_days = r;
        }
        if let Some(m) = monthly_heatmap {
            self.monthly_heatmap = m;
        }
        assert(*self == loaded(*old(self), data0));
        match error {
            Some(e) => self.show_status(joined("Database error: ", e.as_str())),
            None => {
                self.clamp_selected_index();
                if then == AfterReload::ReportImport {
                    self.show_status(owned("Data imported successfully"));
                }
            },
        }
        match then {
            AfterReload::AdjustAfterReorder(up) => {
                if up {
                    if self.selected_index > 0 {
                        self.selected_index = self.selected_index - 1;
                    }
                } else if self.selected_index < self.habits.len() && self.selected_index + 1
                    < self.habits.len() {
                    self.selected_index = self.selected_index + 1;
                }
            },
            _ => {},
        }
        Effect::Idle
    }

    /// Reports how a backup export ended in the status line.
    pub fn export_finished(&mut self, outcome: ExportOutcome)
        ensures
            only_status_changed(*old(self), *final(self)),
            shows_status(*final(self), export_text(outcome)),
    {
        let text = match outcome {
            ExportOutcome::Saved(path) => joined("Export saved to ", path.as_str()),
            ExportOutcome::DatabaseFailed(e) => joined("Database error: ", e.as_str()),
            ExportOutcome::SerializeFailed(e) => joined("Export serialization error: ", e.as_str()),
            ExportOutcome::WriteFailed { primary, fallback } => joined(
                "Failed to export data: ",
                primary.as_str(),
            ).concat(" (fallback: ").concat(fallback.as_str()).concat(")"),
        };
        self.show_status(text);
    }

    /// Every transition except `GoToday`, which reads the clock.
    #[verifier::rlimit(50)]
    fn update_without_clock(&mut self, message: Message) -> (eff: Effect)
        requires
            old(self).wf(),
            !(message is GoToday),
        ensures
            update_rel(*old(self), *final(self), message, eff, old(self).selected_date),
    {
        match message {
            Message::NavigateUp => {
                if self.selected_index > 0 {
                    self.selected_index = self.selected_index - 1;
                }
                Effect::Idle
            },
            Message::NavigateDown => {
                let total = self.total_items_for_screen();
                if total > 0 && self.selected_index < total - 1 {
                    self.selected_index = self.selected_index + 1;
                }
                Effect::Idle
            },
            Message::PreviousDay => match pred_opt(self.selected_date) {
                Some(prev) => {
                    self.selected_date = prev;
                    Effect::Reload(AfterReload::Nothing)
                },
                None => Effect::Idle,
            },
            Message::NextDay => match succ_opt(self.selected_date) {
                Some(next) => {
                    self.selected_date = next;
                    Effect::Reload(AfterReload::Nothing)
                },
                None => Effect::Idle,
            },
            Message::GoToday => Effect::Idle,
            Message::GoTop => {
                self.selected_index = 0;
                Effect::Idle
            },
            Message::GoBottom => {
                let total = self.total_items_for_screen();
                if total > 0 {
                    self.selected_index = total - 1;
                } else {
                    self.selected_index = 0;
                }
                Effect::Idle
            },
            Message::ToggleSidebar => {
                self.sidebar_open = !self.sidebar_open;
                Effect::Idle
            },
            Message::SwitchScreen(screen) => {
                self.screen = screen;
                self.selected_index = 0;
                self.clamp_selected_index();
                Effect::Idle
            },
            Message::OpenSettings => {
                self.screen = Screen::Settings;
                self.selected_index = 0;
                self.clamp_selected_index();
                Effect::Idle
            },
            Message::CloseSettings => {
                self.screen = Screen::Main;
                self.selected_index = 0;
                self.clamp_selected_index();
                Effect::Idle
            },
            Message::ToggleHelp => {
                self.show_help = !self.show_help;
                Effect::Idle
            },
            Message::Quit => Effect::Quit,
            Message::ToggleHabit(id) => Effect::Write(
                DbWrite::ToggleHabit { habit_id: id, date: self.selected_date },
                AfterWrite::Reload,
            ),
            Message::AddHabit(name) => self.add_habit(name),
            Message::ArchiveHabit(id) => Effect::Write(
                DbWrite::ArchiveHabit { habit_id: id },
                AfterWrite::Reload,
            ),
            Message::RenameHabit(id, name) => self.rename_habit(id, name),
            Message::ReorderHabit(id, up) => Effect::Write(
                DbWrite::ReorderHabit { habit_id: id, move_up: up },
                AfterWrite::Reorder(up),
            ),
            Message::ToggleTodo(id) => Effect::Write(
                DbWrite::ToggleTodo { todo_id: id },
                AfterWrite::Reload,
            ),
            Message::AddTodo { title, notes, due_date } => self.add_todo(title, notes, due_date),
            Message::DeleteTodo(id) => Effect::Write(
                DbWrite::DeleteTodo { todo_id: id },
                AfterWrite::CloseInput,
            ),
            Message::UpdateTodoNotes(id, notes) => {
                let n = optional_trimmed(notes.as_str());
                Effect::Write(
                    DbWrite::UpdateTodoNotes { todo_id: id, notes: n },
                    AfterWrite::NotesSaved,
                )
            },
            Message::ToggleSelected => self.toggle_selected(),
            Message::CompleteSelected => self.complete_selected(),
            Message::DeleteSelected => self.delete_selected(),
            Message::ArchiveSelected => {
                if self.screen == Screen::Settings && self.selected_index < self.habits.len() {
                    Effect::Write(
                        DbWrite::ArchiveHabit { habit_id: self.habits[self.selected_index].0.id },
                        AfterWrite::Reload,
                    )
                } else {
                    Effect::Idle
                }
            },
            Message::ReorderSelected(up) => {
                if self.screen == Screen::Settings && self.selected_index < self.habits.len() {
                    Effect::Write(
                        DbWrite::ReorderHabit {
                            habit_id: self.habits[self.selected_index].0.id,
                            move_up: up,
                        },
                        AfterWrite::Reorder(up),
                    )
                } else {
                    Effect::Idle
                }
            },
            Message::StartEdit => self.start_edit(),
            Message::StartEditNotes => self.start_edit_notes(),
            Message::StartRename => self.start_rename(),
            Message::ExportData => Effect::Export,
            Message::ImportData(data) => Effect::Write(
                DbWrite::ImportData(data),
                AfterWrite::Imported,
            ),
            Message::DataExported(result) => {
                match result {
                    Ok(path) => self.show_status(joined("Export saved to ", path.as_str())),
                    Err(e) => self.show_status(joined("Export failed: ", e.as_str())),
                }
                Effect::Idle
            },
            Message::SetInputMode(mode) => self.set_input_mode(mode),
            Message::InputChanged(v) => {
                self.input_buffer = v;
                Effect::Idle
            },
            Message::NotesChanged(v) => {
                self.notes_buffer = v;
                Effect::Idle
            },
            Message::DueDateChanged(_) => Effect::Idle,
            Message::ConfirmDelete(id) => Effect::Write(
                DbWrite::DeleteTodo { todo_id: id },
                AfterWrite::CloseInput,
            ),
            Message::CancelModal => self.cancel_modal(),
            Message::SubmitInput => self.submit_input(),
            Message::DbError(e) => {
                self.show_status(joined("Database error: ", e.as_str()));
                Effect::Idle
            },
            Message::ClearStatusMessage => {
                self.status_message = None;
                Effect::Idle
            },
            Message::Init => Effect::Reload(AfterReload::Nothing),
            Message::Tick => Effect::Idle,
        }
    }

    /// Central transition function for a known local date: reacts to
    /// `message` (with `today` as the date `GoToday` jumps to), changing the
    /// state and naming the storage or runtime work to do next.
    pub fn update_at(&mut self, message: Message, today: CalendarDate) -> (eff: Effect)
        requires
            old(self).wf(),
            today.wf(),
        ensures
            final(self).wf(),
            update_rel(*old(self), *final(self), message, eff, today),
    {
        let ghost start = *self;
        match message {
            Message::GoToday => {
                if self.selected_date != today {
                    self.selected_date = today;
                    Effect::Reload(AfterReload::Nothing)
                } else {
                    Effect::Idle
                }
            },
            other => {
                let ghost m = other;
                let eff = self.update_without_clock(other);
                assert(update_rel(start, *self, message, eff, today));
                eff
            },
        }
    }

    /// Central transition function: as [`AppState::update_at`], with the
    /// local date read from the clock when the message is `GoToday`.
    pub fn update(&mut self, message: Message) -> (eff: Effect)
        requires
            old(self).wf(),
        ensures
            final(self).wf(),
            exists|today: CalendarDate|
                today.wf() && update_rel(*old(self), *final(self), message, eff, today),
            !(message is GoToday) ==> update_rel(
                *old(self),
                *final(self),
                message,
                eff,
                old(self).selected_date,
            ),
    {
        let today = match &message {
            Message::GoToday => local_today(),
            _ => self.selected_date,
        };
        self.update_at(message, today)
    }
}

} // verus!
